//! Settings, files and what the workspace shows.

use vstd::prelude::*;

use crate::text;
use crate::workspace::app::WorkspaceApp;
use crate::workspace::backgrounds::{
    draws_content_background, ensure_bundled_workspace_backgrounds,
    is_bundled_workspace_background, workspace_background_object_fit, DecodeStep, InstallStep,
    ObjectFit, TerminalBackgroundFit, WorkspaceWindowBackgroundEntity,
};
use crate::workspace::cloud_sync_file::{
    export_name, CloudSyncFile, FilePicker, LocalFileEnd, LocalFileRefusal, LocalFileTask,
    LocalFileWork, PickedFile,
};
use crate::workspace::disclosure_motion::{
    DisclosureMotions, DisclosureTimer, MessageSignature, MotionStart,
};
use crate::workspace::history_quit::{HistoryQuit, QuitAnswer, QuitPhase, QuitStep};
use crate::workspace::knowledge_preview::{
    EditorScrollOrigin, KnowledgeDocumentEditor, KnowledgeEditorMode, KnowledgeEditorUiState,
    PreviewStep, SourceAnchor,
};
use crate::workspace::labels::PieceView;
use crate::workspace::paths::{
    default_ai_conversations_path, default_connections_path, default_saved_forwards_path,
    default_session_tree_path, path_view, PartView, PathPart,
};
use crate::workspace::settings_events::{
    deeds, CliCompanionOperation, NoticeVariant, NoticeWords, SettingsAction, SettingsDeed,
    SettingsEvent, SettingsResult,
};
use crate::workspace::sftp_editor::{EditorStatus, FindBar, SftpPreview, StatusTone};

verus! {

/// The application quits at once where there is nothing to save, saves first where there is, and is
/// asked to only once.
pub proof fn law_quitting_saves_first(quit: &mut HistoryQuit, windows: usize, res: QuitStep)
    requires
        call_ensures(HistoryQuit::request_app_quit, (quit, windows), res),
    ensures
        old(quit).phase != QuitPhase::Idle ==> res == QuitStep::Nothing && final(quit).phase == old(
            quit).phase,
        old(quit).phase == QuitPhase::Idle && windows == 0 ==> res == QuitStep::Leave && final(
            quit).phase == QuitPhase::Idle,
        old(quit).phase == QuitPhase::Idle && windows > 0 ==> res == QuitStep::StopAndSave && final(
            quit).phase == QuitPhase::Saving,
{
}

/// Where one thing could not be saved the user is asked; only they can give it up.
pub proof fn law_unsaved_changes_are_asked_about(
    quit: &mut HistoryQuit,
    saved: Vec<bool>,
    res: QuitStep,
    other: &mut HistoryQuit,
    none: QuitStep,
)
    requires
        call_ensures(HistoryQuit::on_saved, (quit, Some(saved)), res),
        call_ensures(HistoryQuit::on_saved, (other, None), none),
    ensures
        res == QuitStep::Leave <==> !saved@.contains(false),
        res == QuitStep::Ask <==> saved@.contains(false),
        final(quit).phase == QuitPhase::Asking <==> saved@.contains(false),
        final(quit).phase == QuitPhase::Leaving <==> !saved@.contains(false),
        none == QuitStep::Ask,
        final(other).phase == QuitPhase::Asking,
{
    if saved@.contains(false) {
        let i = choose|i: int| 0 <= i < saved@.len() && saved@[i] == false;
        assert(!saved@[i]);
    } else {
        assert forall|i: int| 0 <= i < saved@.len() implies saved@[i] by {
            if !saved@[i] {
                assert(saved@.contains(saved@[i]));
            }
        }
    }
}

/// Each answer has its step: try again, give up what is not saved, or stay.
pub proof fn law_answers_to_quitting(quit: &mut HistoryQuit, answer: QuitAnswer, res: QuitStep)
    requires
        call_ensures(HistoryQuit::on_answer, (quit, answer), res),
    ensures
        res == QuitStep::RetryAndSave <==> answer == QuitAnswer::Retry,
        res == QuitStep::Leave <==> answer == QuitAnswer::Discard,
        res == QuitStep::Resume <==> answer != QuitAnswer::Retry && answer != QuitAnswer::Discard,
        final(quit).phase == QuitPhase::Saving <==> answer == QuitAnswer::Retry,
        final(quit).phase == QuitPhase::Leaving <==> answer == QuitAnswer::Discard,
        res == QuitStep::Resume ==> final(quit).phase == QuitPhase::Idle,
{
}

/// A file is picked to read for an import, to write for an export, and not at all for a preview of
/// one.
pub proof fn law_files_are_picked_for_their_use(task: &LocalFileTask, res: FilePicker)
    requires
        call_ensures(LocalFileTask::picker, (task,), res),
    ensures
        res == FilePicker::Open <==> !task.exporting,
        res == FilePicker::Save <==> task.exporting && !task.preview_only,
        res == FilePicker::Unneeded <==> task.exporting && task.preview_only,
{
}

/// One file operation at a time; secrets go into exports alone, and a preview covers everything.
pub proof fn law_file_operations_go_one_by_one<S>(
    sync: &mut CloudSyncFile,
    exporting: bool,
    preview_only: bool,
    kept: bool,
    secrets: Result<Vec<S>, String>,
    res: Result<(LocalFileTask, Vec<S>), LocalFileRefusal>,
)
    requires
        call_ensures(
            CloudSyncFile::start_cloud_sync_local_file::<S>,
            (sync, exporting, preview_only, kept, secrets),
            res,
        ),
    ensures
        old(sync).operation_in_flight || old(sync).local_file_running ==> res is Err
            && res->Err_0 is Busy,
        !old(sync).operation_in_flight && !old(sync).local_file_running && !kept ==> res is Err
            && res->Err_0 is NotKept,
        !old(sync).operation_in_flight && !old(sync).local_file_running && kept && !exporting
            ==> res is Ok,
        !old(sync).operation_in_flight && !old(sync).local_file_running && kept && exporting ==> (
        res is Ok <==> secrets is Ok),
        res is Err ==> *final(sync) == *old(sync),
        res matches Ok((task, collected)) ==> {
            &&& final(sync).local_file_running
            &&& task.exporting == exporting
            &&& task.preview_only == preview_only
            &&& task.selection_only <==> old(sync).has_upload_selection && !preview_only
            &&& exporting ==> collected@ == secrets->Ok_0@
            &&& !exporting ==> collected@.len() == 0
        },
{
}

/// An export that was written clears what was chosen for it; one that was cancelled does not, and
/// what was previewed is shown for its direction.
pub proof fn law_written_exports_clear_their_choice<P>(
    sync: &mut CloudSyncFile,
    task: LocalFileTask,
    cancelled: bool,
    result: Result<Option<P>, String>,
    res: LocalFileEnd<P>,
)
    requires
        call_ensures(CloudSyncFile::finish_local_file::<P>, (sync, task, cancelled, result), res),
    ensures
        !final(sync).local_file_running,
        res is Exported <==> (result is Ok && result->Ok_0 is None && task.exporting && !cancelled),
        res is Exported ==> !final(sync).has_upload_selection && !final(sync).has_upload_preview
            && final(sync).last_error is None,
        !(res is Exported) ==> final(sync).has_upload_selection == old(sync).has_upload_selection
            && final(sync).has_upload_preview == old(sync).has_upload_preview && final(
            sync).last_error == old(sync).last_error,
        result matches Ok(Some(preview)) ==> (task.exporting ==> res == LocalFileEnd::UploadPreview(
            preview,
        )) && (!task.exporting ==> res == LocalFileEnd::PullPreview(preview)),
        result matches Err(error) ==> res is Failed && res->error == error && (task.exporting
            ==> res->action@ == "export"@) && (!task.exporting ==> res->action@ == "import"@),
        result is Ok && result->Ok_0 is None && (cancelled || !task.exporting) ==> res is Nothing,
{
}

/// Nothing is read or written without a password.
pub proof fn law_files_need_a_password(
    task: &LocalFileTask,
    picked: PickedFile,
    password: Result<Option<String>, String>,
    res: LocalFileWork,
)
    requires
        call_ensures(LocalFileTask::plan_work, (task, picked, password), res),
    ensures
        res is Export || res is Import ==> password is Ok && password->Ok_0 is Some
            && password->Ok_0->0@.len() > 0,
        res is Export ==> task.exporting && res->Export_password == password->Ok_0->0,
        res is Import ==> !task.exporting && picked is File && res->Import_password
            == password->Ok_0->0 && res->read_from == picked->File_0,
        res is Export ==> (res->write_to is None <==> task.preview_only),
        res is Export && !task.preview_only ==> res->write_to == Some(picked->File_0),
        picked is Nothing && !task.preview_only <==> res is Cancelled,
        picked is File && password is Ok && password->Ok_0 is Some && password->Ok_0->0@.len() > 0
            ==> (res is Export <==> task.exporting) && (res is Import <==> !task.exporting),
        password is Err && picked is File ==> res is Failed && res->Failed_0 == password->Err_0,
{
}

/// The name of an export holds the moment it was made.
pub proof fn law_exports_are_named_after_their_moment(moment: &str, res: String)
    requires
        call_ensures(export_name, (moment,), res),
    ensures
        res@ == "oxideterm-"@ + moment@ + ".oxide"@,
{
}

/// The three pictures that come along are installed one after the other, and then it is done.
pub proof fn law_pictures_are_installed_in_order<E>(installed: usize, last: Result<(), E>, res: InstallStep<E>)
    requires
        call_ensures(ensure_bundled_workspace_backgrounds::<E>, (installed, last), res),
    ensures
        last is Err ==> res == InstallStep::Failed(last->Err_0),
        last is Ok && installed == 0 ==> res is Install && res->Install_0@
            == "oxide-ambient-v1.png"@,
        last is Ok && installed == 1 ==> res is Install && res->Install_0@
            == "oxide-nocturne-v1.webp"@,
        last is Ok && installed == 2 ==> res is Install && res->Install_0@
            == "oxide-verdant-v1.webp"@,
        last is Ok && installed >= 3 ==> res is Done,
{
}

/// A picture that comes along is known by its name in the folder of the pictures.
pub proof fn law_bundled_pictures_are_known(directory: &Vec<PathPart>, image: &Vec<PathPart>, res: bool)
    requires
        call_ensures(is_bundled_workspace_background, (directory, image), res),
    ensures
        res <==> {
            ||| path_view(image@) == path_view(directory@).push(
                PartView::Name("oxide-ambient-v1.png"@),
            )
            ||| path_view(image@) == path_view(directory@).push(
                PartView::Name("oxide-nocturne-v1.webp"@),
            )
            ||| path_view(image@) == path_view(directory@).push(
                PartView::Name("oxide-verdant-v1.webp"@),
            )
        },
{
    let names = crate::workspace::backgrounds::bundled();
    let directory = path_view(directory@);
    let image = path_view(image@);
    assert(names.len() == 3);
    assert(names[0] == "oxide-ambient-v1.png"@);
    assert(names[1] == "oxide-nocturne-v1.webp"@);
    assert(names[2] == "oxide-verdant-v1.webp"@);
}

/// A picture fills its window as was chosen, and a tiled one keeps its size.
pub proof fn law_pictures_fit_as_chosen(fit: TerminalBackgroundFit, res: ObjectFit)
    requires
        call_ensures(workspace_background_object_fit, (fit,), res),
    ensures
        res == ObjectFit::Cover <==> fit == TerminalBackgroundFit::Cover,
        res == ObjectFit::Contain <==> fit == TerminalBackgroundFit::Contain,
        res == ObjectFit::Fill <==> fit == TerminalBackgroundFit::Fill,
        res == ObjectFit::Natural <==> fit == TerminalBackgroundFit::Tile,
{
}

/// Terminals draw their own background.
pub proof fn law_terminals_draw_their_own_background(key: Option<&str>, wanted: bool, res: bool)
    requires
        call_ensures(draws_content_background, (key, wanted), res),
    ensures
        res ==> wanted && key is Some,
        key is Some && (key->0@ == "terminal"@ || key->0@ == "local_terminal"@) ==> !res,
        wanted && key is Some && key->0@ != "terminal"@ && key->0@ != "local_terminal"@ ==> res,
{
}

/// One timer waits for pictures that are decoded, as long as some are; pictures that were retired are
/// handed out once.
pub proof fn law_one_timer_waits_for_pictures<I>(
    background: &mut WorkspaceWindowBackgroundEntity<I>,
    limit: usize,
    pending: bool,
    drawn: (Vec<I>, bool),
    other: &mut WorkspaceWindowBackgroundEntity<I>,
    completed: bool,
    more: bool,
    step: (DecodeStep, Vec<I>),
)
    requires
        call_ensures(
            WorkspaceWindowBackgroundEntity::<I>::render_layer,
            (background, limit, pending),
            drawn,
        ),
        call_ensures(
            WorkspaceWindowBackgroundEntity::<I>::on_decode_timer,
            (other, completed, more),
            step,
        ),
    ensures
        drawn.0@ == old(background).retired@,
        final(background).retired@.len() == 0,
        final(background).byte_limit == limit,
        drawn.1 <==> pending && !old(background).decode_timer_running,
        final(background).decode_timer_running <==> pending || old(background).decode_timer_running,
        step.0.redraw == completed,
        step.0.start_timer == more,
        final(other).decode_timer_running == more,
        completed ==> step.1@ == old(other).retired@ && final(other).retired@.len() == 0,
        !completed ==> step.1@.len() == 0 && final(other).retired == old(other).retired,
{
}

/// The files of the application lie beside its settings, each under its name.
pub proof fn law_files_lie_beside_the_settings(
    settings: &Vec<PathPart>,
    connections: Vec<PathPart>,
    forwards: Vec<PathPart>,
    tree: Vec<PathPart>,
    conversations: Vec<PathPart>,
)
    requires
        call_ensures(default_connections_path, (settings,), connections),
        call_ensures(default_saved_forwards_path, (settings,), forwards),
        call_ensures(default_session_tree_path, (settings,), tree),
        call_ensures(default_ai_conversations_path, (settings,), conversations),
        settings@.len() > 0,
        settings@.last() is Name || settings@.last() is Current || settings@.last() is Parent,
    ensures
        path_view(connections@).drop_last() == path_view(settings@).drop_last(),
        path_view(connections@).last() == PartView::Name("connections.json"@),
        path_view(forwards@).drop_last() == path_view(settings@).drop_last(),
        path_view(forwards@).last() == PartView::Name("forwards.json"@),
        path_view(tree@).drop_last() == path_view(settings@).drop_last(),
        path_view(tree@).last() == PartView::Name("session_tree.json"@),
        path_view(conversations@).drop_last() == path_view(settings@).drop_last(),
        path_view(conversations@).last() == PartView::Name("chat_history.redb"@),
{
    let path = path_view(settings@);
    assert(path.last() == settings@.last()@);
    assert(path.drop_last().push(PartView::Name("connections.json"@)).drop_last()
        =~= path.drop_last());
    assert(path.drop_last().push(PartView::Name("forwards.json"@)).drop_last() =~= path.drop_last());
    assert(path.drop_last().push(PartView::Name("session_tree.json"@)).drop_last()
        =~= path.drop_last());
    assert(path.drop_last().push(PartView::Name("chat_history.redb"@)).drop_last()
        =~= path.drop_last());
}

/// A motion begins from where it is, or else from the end it leaves; its timer ends it, and no other
/// timer does.
pub proof fn law_motions_end_with_their_timer(
    motions: &mut DisclosureMotions,
    key: String,
    expanded: bool,
    timer: DisclosureTimer,
    other: Seq<char>,
)
    requires
        call_ensures(DisclosureMotions::begin, (motions, key, expanded), timer),
        motions.generation < u64::MAX,
    ensures
        timer.key@ == key@,
        timer.generation == old(motions).generation + 1,
        timer.start == MotionStart::WhereItIs <==> old(motions).entries@.dom().contains(key@),
        !old(motions).entries@.dom().contains(key@) && expanded ==> timer.start
            == MotionStart::Closed,
        !old(motions).entries@.dom().contains(key@) && !expanded ==> timer.start == MotionStart::Open,
        final(motions).entries@.dom().contains(key@),
        final(motions).entries@[key@].generation == timer.generation,
        final(motions).entries@[key@].expanded == expanded,
        other != key@ ==> (final(motions).entries@.dom().contains(other) <==> old(
            motions).entries@.dom().contains(other)),
{
}

/// A timer ends the motion it was made for.
pub proof fn law_timers_end_their_motion(
    motions: &mut DisclosureMotions,
    key: &str,
    generation: u64,
    res: bool,
    other: Seq<char>,
)
    requires
        call_ensures(DisclosureMotions::finish, (motions, key, generation), res),
    ensures
        res <==> old(motions).entries@.dom().contains(key@) && old(motions).entries@[key@].generation
            == generation,
        res ==> !final(motions).entries@.dom().contains(key@),
        !res ==> *final(motions) == *old(motions),
        other != key@ ==> (final(motions).entries@.dom().contains(other) <==> old(
            motions).entries@.dom().contains(other)),
{
}

/// What is open is shown, and what closes is shown until it is closed.
pub proof fn law_closing_parts_are_shown(motions: &DisclosureMotions, key: &str, expanded: bool, res: bool)
    requires
        call_ensures(DisclosureMotions::retained, (motions, key, expanded), res),
    ensures
        expanded ==> res,
        !expanded ==> (res <==> motions.entries@.dom().contains(key@)
            && !motions.entries@[key@].expanded),
{
}

/// A part that is clicked turns round, and stays as it was turned.
pub proof fn law_clicked_parts_turn_round(
    app: &mut WorkspaceApp,
    key: String,
    default_expanded: bool,
    timer: Option<DisclosureTimer>,
    other: &mut WorkspaceApp,
    tool: String,
    tool_timer: Option<DisclosureTimer>,
)
    requires
        call_ensures(
            WorkspaceApp::toggle_ai_thinking_with_motion,
            (app, key, default_expanded),
            timer,
        ),
        call_ensures(WorkspaceApp::toggle_ai_tool_with_motion, (other, tool), tool_timer),
    ensures
        ({
            let before = old(app).disclosures.thinking@;
            let shown = if before.dom().contains(key@) {
                before[key@]
            } else {
                default_expanded
            };
            &&& final(app).disclosures.thinking@.dom().contains(key@)
            &&& final(app).disclosures.thinking@[key@] == !shown
            &&& timer is Some <==> old(app).disclosures.motion_enabled
            &&& timer is Some ==> timer->0.key@ == "ai:"@ + key@ + ":thinking"@
        }),
        final(other).disclosures.tools@.dom().contains(tool@) <==> !old(
            other).disclosures.tools@.dom().contains(tool@),
        tool_timer is Some <==> old(other).disclosures.motion_enabled,
        tool_timer is Some ==> tool_timer->0.key@ == "ai:"@ + tool@ + ":tool"@,
{
}

/// A message stands still where none of its parts moves.
pub proof fn law_still_messages_have_no_motion(signature: &MessageSignature, res: bool)
    requires
        call_ensures(MessageSignature::is_still, (signature,), res),
    ensures
        res <==> signature.own@.len() + signature.thinking@.len() + signature.tools@.len() == 0,
{
}

/// The status of an editor tells the worst first: an error, then a save that runs, then changes, and
/// only then how it was saved.
pub proof fn law_the_status_tells_the_worst_first(preview: &SftpPreview, res: EditorStatus)
    requires
        call_ensures(SftpPreview::render_sftp_editor_status, (preview,), res),
    ensures
        res is Retry <==> preview.save_error is Some && preview.network_error,
        res is Retry ==> res->message@ == preview.save_error->0@,
        preview.save_error is Some && !preview.network_error ==> res is Text && res->tone
            == StatusTone::Red && res->text@ == PieceView::Plain(preview.save_error->0@),
        preview.save_error is None && preview.saving ==> res is Text && res->tone
            == StatusTone::Muted && res->text@ == PieceView::Translated("sftp.preview.saving"@),
        preview.save_error is None && !preview.saving && preview.dirty ==> res is Text && res->tone
            == StatusTone::Yellow && res->text@ == PieceView::Translated("sftp.preview.modified"@),
        preview.save_error is None && !preview.saving && !preview.dirty
            && preview.last_atomic_write == Some(true) ==> res is Text && res->tone
            == StatusTone::Green && res->text@ == PieceView::Translated(
            "sftp.preview.saved_atomic"@,
        ),
        preview.save_error is None && !preview.saving && !preview.dirty
            && preview.last_atomic_write == Some(false) ==> res is Text && res->tone
            == StatusTone::Green && res->text@ == PieceView::Translated(
            "sftp.preview.saved_direct"@,
        ),
        preview.save_error is None && !preview.saving && !preview.dirty
            && preview.last_atomic_write is None ==> res is Nothing,
{
}

/// The find bar counts what was found, up to nine hundred and ninety-nine.
pub proof fn law_found_places_are_counted(preview: &SftpPreview, res: FindBar)
    requires
        call_ensures(SftpPreview::render_sftp_preview_find_bar, (preview,), res),
    ensures
        res.query@ == preview.find_query@,
        res.case_sensitive == preview.find_case,
        res.focused == preview.find_focused,
        res.can_step <==> preview.editor is Some && preview.editor->0.matches.total > 0,
        preview.editor is None || preview.find_query@.len() == 0 ==> res.match_label@ == ""@,
        preview.editor is Some && preview.find_query@.len() > 0 && preview.editor->0.matches.total
            >= 1000 ==> res.match_label@ == "999+"@,
        preview.editor is Some && preview.find_query@.len() > 0 && preview.editor->0.matches.total
            < 1000 && preview.editor->0.matches.current is Some ==> res.match_label@
            == text::decimal(preview.editor->0.matches.current->0 as nat) + "/"@ + text::decimal(
            preview.editor->0.matches.total as nat,
        ),
        preview.editor is Some && preview.find_query@.len() > 0 && preview.editor->0.matches.total
            < 1000 && preview.editor->0.matches.current is None ==> res.match_label@
            == text::decimal(0) + "/"@ + text::decimal(preview.editor->0.matches.total as nat),
{
}

/// A preview that was made of an older text is not shown, and is made again unless that is to come
/// anyway.
pub proof fn law_previews_show_the_text_as_it_is<F: Copy, Y>(
    editor: &mut KnowledgeDocumentEditor<F, Y>,
    version: u64,
    res: PreviewStep<Y>,
)
    requires
        call_ensures(KnowledgeDocumentEditor::<F, Y>::on_preview_loaded, (editor, version), res),
    ensures
        version == old(editor).observed_buffer_version ==> final(editor).preview_version == Some(
            version,
        ) && !final(editor).preview_running,
        version != old(editor).observed_buffer_version ==> final(editor).preview_version == old(
            editor).preview_version,
        version != old(editor).observed_buffer_version ==> (res is Load <==> !old(
            editor).preview_timer_running && old(editor).mode != KnowledgeEditorMode::Source),
        res is Load ==> res->Load_0 == old(editor).observed_buffer_version && final(
            editor).preview_running,
        version == old(editor).observed_buffer_version && old(editor).mode
            == KnowledgeEditorMode::Split && !old(editor).preview_leads ==> res is SyncFromEditor,
        final(editor).mode == old(editor).mode,
{
}

/// Of two panes the one that the user scrolls leads, and the other does not answer it.
pub proof fn law_the_scrolled_pane_leads<F: Copy, Y>(
    editor: &mut KnowledgeDocumentEditor<F, Y>,
    origin: EditorScrollOrigin,
    res: bool,
    other: &mut KnowledgeDocumentEditor<F, Y>,
    version: u64,
    follows: bool,
)
    requires
        call_ensures(KnowledgeDocumentEditor::<F, Y>::on_viewport_changed, (editor, origin), res),
        call_ensures(
            KnowledgeDocumentEditor::<F, Y>::on_preview_scrolled,
            (other, version),
            follows,
        ),
    ensures
        origin == EditorScrollOrigin::Synchronization ==> !res && final(editor).preview_leads == old(
            editor).preview_leads,
        old(editor).mode != KnowledgeEditorMode::Split ==> !res,
        old(editor).mode == KnowledgeEditorMode::Split && origin == EditorScrollOrigin::User ==> res
            && !final(editor).preview_leads,
        follows <==> old(other).mode == KnowledgeEditorMode::Split && version == old(
            other).observed_buffer_version,
        follows ==> final(other).preview_leads,
        !follows ==> final(other).preview_leads == old(other).preview_leads,
{
}

/// A place that is waited for moves with the text it was measured in, and only with that.
pub proof fn law_awaited_places_move_with_their_text<F: Copy, Y>(
    editor: &mut KnowledgeDocumentEditor<F, Y>,
    before: u64,
    after: u64,
    mapped: usize,
)
    requires
        call_ensures(
            KnowledgeDocumentEditor::<F, Y>::remap_preview_anchor,
            (editor, before, after, mapped),
            (),
        ),
        editor.pending_preview_anchor is Some,
    ensures
        final(editor).pending_preview_anchor is Some,
        old(editor).pending_preview_anchor->0.version == before ==> final(
            editor).pending_preview_anchor->0.position == mapped && final(
            editor).pending_preview_anchor->0.version == after,
        old(editor).pending_preview_anchor->0.version != before ==> final(
            editor).pending_preview_anchor == old(editor).pending_preview_anchor,
{
}

/// Markdown alone has a preview, opens as it was left, and is read only while the preview is all there
/// is.
pub proof fn law_documents_open_as_they_were_left<F: Copy, Y>(
    editor: &mut KnowledgeDocumentEditor<F, Y>,
    preferences: KnowledgeEditorUiState<F>,
    res: Option<u64>,
)
    requires
        call_ensures(
            KnowledgeDocumentEditor::<F, Y>::initialize_preview,
            (editor, preferences),
            res,
        ),
    ensures
        old(editor).is_markdown ==> final(editor).mode == preferences.mode && final(
            editor).source_ratio == preferences.source_ratio,
        !old(editor).is_markdown ==> final(editor).mode == old(editor).mode && res is None,
        final(editor).read_only <==> final(editor).mode == KnowledgeEditorMode::Preview,
        res is Some <==> old(editor).is_markdown && preferences.mode != KnowledgeEditorMode::Source
            && !old(editor).preview_running,
        res is Some ==> res->0 == old(editor).observed_buffer_version && final(
            editor).preview_running,
{
}

/// A blur that did not change is not stored, and a companion that was only looked at is not talked of.
pub proof fn law_what_did_not_change_is_not_stored(
    app: &mut WorkspaceApp,
    value: u32,
    res: Vec<SettingsAction>,
)
    requires
        call_ensures(
            WorkspaceApp::handle_settings_workspace_event,
            (app, SettingsEvent::BackgroundBlurCommitted(value)),
            res,
        ),
    ensures
        final(app).settings.background_blur == value,
        value == old(app).settings.background_blur ==> res@.len() == 0,
        value != old(app).settings.background_blur ==> res@.len() == 1 && res@[0] is StoreSettings,
{
    let done = deeds(res@);
    assert(done.len() == res@.len());
    if res@.len() == 1 {
        assert(done[0] == res@[0]@);
    }
}

/// Each operation on the companion has its words, a failure has its own, and a look at it has none.
pub proof fn law_companions_are_talked_of(
    app: &mut WorkspaceApp,
    operation: CliCompanionOperation,
    success: bool,
    error: Option<String>,
    res: Vec<SettingsAction>,
)
    requires
        call_ensures(
            WorkspaceApp::handle_settings_workspace_event,
            (app, SettingsEvent::CliCompanionFinished { operation, success, error }),
            res,
        ),
    ensures
        final(app).settings == old(app).settings,
        operation == CliCompanionOperation::Refresh ==> res@.len() == 0,
        operation != CliCompanionOperation::Refresh && success ==> res@.len() == 1
            && res@[0] is Toast && res@[0]->Toast_variant == NoticeVariant::Success
            && res@[0]->Toast_words@ is Lookup && res@[0]->Toast_words@->Lookup_0.key
            == match operation {
            CliCompanionOperation::Install => "settings_view.general.cli_installed"@,
            CliCompanionOperation::Uninstall => "settings_view.general.cli_uninstalled"@,
            CliCompanionOperation::UninstallLegacy => "migration.cli_legacy_uninstalled"@,
            _ => "migration.cli_migrated"@,
        },
        operation != CliCompanionOperation::Refresh && !success && error is Some ==> res@.len() == 1
            && res@[0] is Toast && res@[0]->Toast_variant == NoticeVariant::Error
            && res@[0]->Toast_words@ == NoticeWords::Plain(error->0@),
        operation != CliCompanionOperation::Refresh && !success && error is None ==> res@.len() == 0,
{
    let done = deeds(res@);
    assert(done.len() == res@.len());
    if res@.len() == 1 {
        assert(done[0] == res@[0]@);
    }
}

/// A password that was changed is told and shown; one that was not says why.
pub proof fn law_changed_passwords_are_told(
    app: &mut WorkspaceApp,
    success: bool,
    error: Option<String>,
    res: Vec<SettingsAction>,
)
    requires
        call_ensures(
            WorkspaceApp::handle_settings_workspace_event,
            (app, SettingsEvent::PortablePasswordChanged { success, error }),
            res,
        ),
    ensures
        final(app).settings == old(app).settings,
        success ==> res@.len() == 2 && res@[0] is Toast && res@[0]->Toast_variant
            == NoticeVariant::Success && res@[1] is RefreshPortableSettings,
        !success && error is Some ==> res@.len() == 1 && res@[0] is Toast && res@[0]->Toast_variant
            == NoticeVariant::Error && res@[0]->Toast_words@ == NoticeWords::Plain(error->0@),
        !success && error is None ==> res@.len() == 0,
{
    let done = deeds(res@);
    assert(done.len() == res@.len());
    assert(forall|i: int| 0 <= i < res@.len() ==> done[i] == (#[trigger] res@[i])@);
}

/// What one operation on the settings does, and what is told of it.
pub proof fn law_operations_on_settings(
    app: &mut WorkspaceApp,
    results: Vec<SettingsResult>,
    res: Vec<SettingsAction>,
)
    requires
        call_ensures(
            WorkspaceApp::handle_settings_workspace_event,
            (app, SettingsEvent::OperationsReady(results)),
            res,
        ),
        results@.len() == 1,
    ensures
        ({
            let result = results@[0];
            let before = old(app).settings;
            let after = final(app).settings;
            let done = deeds(res@);
            &&& done.len() > 0
            &&& done.last() is Redraw
            &&& result matches SettingsResult::ThemeImported { theme_id, name, value } ==> {
                &&& after.theme@ == theme_id@
                &&& after.custom_themes@.dom().contains(theme_id@)
                &&& after.custom_themes@[theme_id@] == value
                &&& done.len() == 3
                &&& done[0] is StoreSettings
                &&& done[1] is Notice
                &&& done[1]->Notice_variant == NoticeVariant::Success
            }
            &&& result matches SettingsResult::KeysImported { overrides, window } ==> {
                &&& after.key_overrides == overrides
                &&& done.len() == 4
                &&& done[0] is StoreSettings
                &&& done[1] is Rebind
                &&& done[1]->previous == before.key_overrides@
                &&& done[2] is Toast
                &&& done[2]->Toast_variant == NoticeVariant::Success
            }
            &&& result matches SettingsResult::GalleryUpdated(path) ==> {
                &&& text::opt_view(after.background_image) == text::opt_view(path)
                &&& done.len() == 1 <==> text::opt_view(path) == text::opt_view(
                    before.background_image,
                )
                &&& done.len() == 2 ==> done[0] is StoreSettings
            }
            &&& result is DirectoryFailed || result is KeysExportFailed || result is KeysImportFailed
                ==> after == before && done.len() == 2 && done[0] is Toast
                && done[0]->Toast_variant == NoticeVariant::Error
            &&& result is DirectoryChanged || result is DirectoryReset || result is KeysExported
                ==> after == before && done.len() == 2 && done[0] is Toast
                && done[0]->Toast_variant == NoticeVariant::Success
            &&& result is GalleryFailed || result is ThemeImportFailed ==> after == before
                && done.len() == 2 && done[0] is Notice && done[0]->Notice_variant
                == NoticeVariant::Error
            &&& result matches SettingsResult::ThemeDeleted(Some(theme)) ==> after == before
                && done.len() == 3 && done[0] == (SettingsDeed::DeleteTheme { theme_id: theme@ })
                && done[1] is StoreSettings
            &&& result matches SettingsResult::ThemeSaved { editor } ==> after == before
                && done.len() == 2 && done[0] == (SettingsDeed::SaveTheme { editor })
        }),
{
    let done = deeds(res@);
    let steps = choose|steps: Seq<(crate::workspace::settings_events::WorkspaceSettings, Seq<SettingsDeed>)>|
        {
            &&& #[trigger] crate::workspace::settings_events::steps_of_results(steps, results@)
            &&& steps[0] == (old(app).settings, Seq::<SettingsDeed>::empty())
            &&& steps.last().0 == final(app).settings
            &&& done == steps.last().1.push(SettingsDeed::Redraw)
        };
    assert(steps.len() == 2);
    let result = results@[0];
    assert(crate::workspace::settings_events::step_of_result(steps[0], steps[1], result));
    assert(steps.last() == steps[1]);
    let own = crate::workspace::settings_events::deeds_of(result, old(app).settings);
    assert(Seq::<SettingsDeed>::empty() + own =~= own);
}

} // verus!
