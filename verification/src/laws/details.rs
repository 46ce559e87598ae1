//! Further steps of the workspace.

use vstd::prelude::*;

use crate::ai::agent_commands::{plan_coordination, CoordinationStep};
use crate::ai_state::compaction::{CompactionLoad, CompactionRefused, SummaryConfig};
use crate::ai_state::entity::{AiWorkspaceEntity, Effect, PageDirection};
use crate::ai_state::journal::RevisionClock;
use crate::ai_state::model::{ConversationHead, HistoryViewOwner};
use crate::json::parsed_json;
use crate::text::seq_view;
use crate::workspace::agent_launch::{AbandonedChild, PreparedChild};
use crate::workspace::app::WorkspaceApp;
use crate::workspace::disclosure_motion::{Disclosures, DisclosureTimer};
use crate::workspace::ftp_files::FtpRuntime;
use crate::workspace::ftp_transfers::{
    BackgroundTransfer, BackgroundTransferKind, RemoteTransferStrategy, SftpTransferDirection,
};
use crate::workspace::remote_desktop::{
    HelperRequest, RemoteDesktopLockKeys, RemoteDesktopMappedPoint, RemoteDesktopSessionEntity,
    WheelTurn,
};
use crate::workspace::ssh_algorithms::{
    AlgorithmDetail, EditorKey, SshAlgorithmCategory, SshAlgorithmEditor, SshCapabilityReport,
};

verus! {

/// Without an agent there is no coordination, and without a document no arguments.
pub proof fn law_coordination_needs_an_agent_and_arguments(
    has_agent: bool,
    is_child: bool,
    has_parent: bool,
    name: &str,
    arguments: &str,
    res: CoordinationStep,
)
    requires
        call_ensures(plan_coordination, (has_agent, is_child, has_parent, name, arguments), res),
    ensures
        !has_agent ==> res is Refuse && res->Refuse_0 is Unavailable,
        has_agent && parsed_json(arguments@) is None ==> res is Refuse
            && res->Refuse_0 is InvalidArguments,
        has_agent && parsed_json(arguments@) is Some && !is_child && name@ == "wait_agents"@
            ==> res is WaitAgents,
        has_agent && parsed_json(arguments@) is Some && !is_child && name@ != "wait_agents"@
            ==> res is HostCommand,
        is_child ==> !(res is WaitAgents) && !(res is HostCommand),
        !is_child ==> !(res is ReportProgress) && !(res is AskParent),
{
}

/// The picture of the pointer stands where the pointer is, and stays where it leaves the screen.
pub proof fn law_the_pointer_is_drawn_where_it_is(
    session: &mut RemoteDesktopSessionEntity,
    point: Option<RemoteDesktopMappedPoint>,
    res: Option<RemoteDesktopMappedPoint>,
)
    requires
        call_ensures(RemoteDesktopSessionEntity::map_pointer_position, (session, point), res),
    ensures
        res == point,
        point is Some ==> final(session).cursor == point,
        point is None ==> final(session).cursor == old(session).cursor,
        final(session).asked() == old(session).asked(),
{
}

/// Lock keys that changed are told, each as it is; those that did not are not.
pub proof fn law_pressed_locks_are_told(session: &mut RemoteDesktopSessionEntity, keys: RemoteDesktopLockKeys)
    requires
        call_ensures(RemoteDesktopSessionEntity::sync_lock_key_press, (session, Some(keys)), ()),
        session.worker,
    ensures
        final(session).last_lock_keys == Some(keys),
        old(session).last_lock_keys == Some(keys) ==> final(session).asked() == old(session).asked(),
        old(session).last_lock_keys != Some(keys) ==> final(session).asked() == old(
            session).asked().push(HelperRequest::SynchronizeLockKeys { keys }),
{
    let before = old(session).asked();
    assert(before + seq![HelperRequest::SynchronizeLockKeys { keys }] =~= before.push(
        HelperRequest::SynchronizeLockKeys { keys },
    ));
    assert(before + Seq::<HelperRequest>::empty() =~= before);
}

/// The wheel turns in its tab, behind the pointer, and keeps what is left of a step.
pub proof fn law_the_wheel_turns_in_its_tab(
    app: &mut WorkspaceApp,
    tab: u64,
    point: RemoteDesktopMappedPoint,
    turn: WheelTurn,
    res: bool,
)
    requires
        call_ensures(
            WorkspaceApp::handle_remote_desktop_wheel,
            (app, tab, Some(point), turn),
            res,
        ),
        app.remote_sessions@.dom().contains(tab),
        app.remote_sessions@[tab].worker,
    ensures
        ({
            let before = old(app).remote_sessions@[tab];
            let after = final(app).remote_sessions@[tab];
            &&& res
            &&& after.wheel_remainder == turn.remainder
            &&& after.asked().len() == before.asked().len() + if turn.steps is Some {
                2int
            } else {
                1int
            }
            &&& turn.steps matches Some((x, y)) ==> after.asked().last() == (HelperRequest::Wheel {
                delta_x: x,
                delta_y: y,
            })
            &&& after.asked()[before.asked().len() as int] == (HelperRequest::MouseMove {
                x: point.x,
                y: point.y,
            })
        }),
{
}

/// A transfer is listed under the last part of its path, by its direction, as a file or a folder.
pub proof fn law_transfers_are_listed_by_name(
    runtime: &FtpRuntime,
    direction: SftpTransferDirection,
    directory: bool,
    remote: &str,
    name: Option<&str>,
    res: BackgroundTransfer,
)
    requires
        call_ensures(FtpRuntime::describe_transfer, (runtime, direction, directory, remote, name), res),
    ensures
        name is Some ==> res.name@ == name->0@,
        name is None ==> res.name@ == remote@,
        res.direction == direction,
        res.kind == BackgroundTransferKind::Directory <==> directory,
        res.kind == BackgroundTransferKind::File <==> !directory,
        res.strategy == RemoteTransferStrategy::DirectoryRecursive <==> directory,
        res.strategy == RemoteTransferStrategy::File <==> !directory,
{
}

/// A store that was cleared lists nothing, and asks for nothing of what was in it.
pub proof fn law_cleared_stores_list_nothing(ai: &mut AiWorkspaceEntity)
    requires
        call_ensures(AiWorkspaceEntity::reset_conversation_lists_after_clear, (ai,), ()),
        ai.history.conversation_list_epoch < u64::MAX,
    ensures
        final(ai).history.conversation_list_epoch == old(ai).history.conversation_list_epoch + 1,
        final(ai).history.current_list.initialized && !final(ai).history.current_list.has_more
            && !final(ai).history.current_list.running,
        final(ai).history.archived_list.initialized && !final(ai).history.archived_list.has_more
            && !final(ai).history.archived_list.running,
{
}

/// The lists begin with a page of fifty.
pub proof fn law_lists_begin_with_a_page(
    ai: &mut AiWorkspaceEntity,
    heads: &mut Vec<ConversationHead>,
    id: Seq<char>,
)
    requires
        call_ensures(AiWorkspaceEntity::initialize_conversation_list, (ai, heads), ()),
    ensures
        final(heads)@.len() <= 50,
        old(heads)@.len() <= 50 ==> final(heads)@ == old(heads)@,
        old(heads)@.len() > 50 ==> final(heads)@.len() == 50,
        forall|i: int|
            0 <= i < final(heads)@.len() ==> #[trigger] final(heads)@[i] == old(heads)@[i],
        final(ai).history.current_list.initialized,
        final(ai).history.current_list.has_more <==> old(heads)@.len() > 50,
        !final(ai).history.archived_list.initialized,
        !final(ai).history.deleted_conversations@.dom().contains(id),
{
}

/// A page that is read afresh is the first one, or one around a message.
pub proof fn law_fresh_pages(direction: PageDirection, res: bool)
    requires
        call_ensures(PageDirection::is_fresh, (direction,), res),
    ensures
        res <==> direction == PageDirection::Initial || direction is Around,
{
}

/// A compaction that is asked for is the one that is loaded: with its conversation, silent or not, by
/// force or not, and with what is to go on after it.
pub proof fn law_compactions_are_those_asked_for<R>(
    app: &mut WorkspaceApp,
    conversation: String,
    silent: bool,
    force: bool,
    resume: Option<R>,
    config: Result<SummaryConfig, String>,
    waiter: u64,
    res: Result<CompactionLoad<R>, CompactionRefused<R>>,
)
    requires
        call_ensures(
            WorkspaceApp::start_ai_compact_conversation_for::<R>,
            (app, conversation, silent, force, resume, config, waiter),
            res,
        ),
    ensures
        res matches Ok(load) ==> {
            &&& load.request.conversation_id@ == conversation@
            &&& load.request.silent == silent
            &&& load.request.force == force
            &&& load.request.resume_after == resume
            &&& !load.request.summary
            &&& load.waiter == waiter
            &&& config is Ok
        },
        res matches Err(refused) ==> refused.resume_after == resume && *final(app) == *old(app) && (
        silent ==> refused.error is None),
        config is Err ==> res is Err,
{
}

/// A child of a parent that has finished is not launched, and says why.
pub proof fn law_orphans_are_not_launched(
    app: &mut WorkspaceApp,
    child: crate::workspace::agent_launch::ChildRun,
    labels: Vec<String>,
    follow_up: Option<String>,
    now: i64,
    revision: u64,
    clock: &mut RevisionClock,
    res: Result<PreparedChild, AbandonedChild>,
)
    requires
        call_ensures(
            WorkspaceApp::launch_ai_child,
            (app, child, labels, follow_up, now, revision, clock),
            res,
        ),
    ensures
        res is Ok <==> old(app).ai_entity.agents.groups@.dom().contains(
            child.snapshot.run.group_id@,
        ),
        res matches Err(abandoned) ==> abandoned.error@ == "Parent task has finished"@
            && abandoned.error_code@ == "agent_launch_failed"@ && final(clock).last == old(
            clock).last,
        res matches Ok(prepared) ==> {
            let group = old(app).ai_entity.agents.groups@[child.snapshot.run.group_id@];
            &&& prepared.conversation_id == child.snapshot.conversation_id
            &&& prepared.context_window == group.context_window
            &&& prepared.assistant_id@.len() == 36
        },
{
}

/// A save before quitting is asked for, and its waiter is answered or kept.
pub proof fn law_quitting_asks_for_a_save(app: &mut WorkspaceApp, waiter: u64)
    requires
        call_ensures(WorkspaceApp::save_for_quit, (app, waiter), ()),
    ensures
        ({
            let before = old(app).ai_entity.history.asked();
            let after = final(app).ai_entity.history.asked();
            &&& after.len() == before.len() + 2
            &&& after[before.len() as int] == Effect::Save
            &&& after.last() == (Effect::Answer { waiter, committed: true }) || (after.last()
                == Effect::Save && final(app).ai_entity.history.waiters@.last().1 == waiter)
            &&& final(app).ai_entity.history.changes == old(app).ai_entity.history.changes
        }),
{
}

/// A row is asked to be shown where it was, and only once.
pub proof fn law_places_are_restored_once(ai: &mut AiWorkspaceEntity, id: &str)
    requires
        call_ensures(AiWorkspaceEntity::restore_history_scroll_anchor, (ai, id), ()),
    ensures
        !old(ai).history.pages@.dom().contains(id@) || old(ai).history.pages@[id@].anchor is None
            ==> *final(ai) == *old(ai),
        old(ai).history.pages@.dom().contains(id@) ==> final(
            ai).history.pages@[id@].anchor is None,
        old(ai).history.pages@.dom().contains(id@) && old(
            ai).history.pages@[id@].anchor is Some && old(ai).active() is Some ==> final(
            ai).history.asked().len() == old(ai).history.asked().len() + 1 && final(
            ai).history.asked().last() is ScrollTo,
{
}

/// A message is shown live while it streams or waits for the disk, and never in an archive.
pub proof fn law_live_messages_are_shown_live(
    ai: &AiWorkspaceEntity,
    owner: &HistoryViewOwner,
    id: &str,
    res: Option<(u64, Option<u64>)>,
)
    requires
        call_ensures(AiWorkspaceEntity::live_history_view, (ai, owner, id), res),
    ensures
        owner is Archive ==> res is None,
        owner is Main && ai.message(owner->Main_0@, id@) is None ==> res is None,
        owner is Main && ai.message(owner->Main_0@, id@) is Some && ai.message(
            owner->Main_0@,
            id@,
        )->0.is_streaming ==> res is Some,
        owner is Main && ai.message(owner->Main_0@, id@) is Some
            && ai.history.changes.messages@.dom().contains((owner->Main_0@, id@)) ==> res is Some
            && (res matches Some((revision, _)) ==> revision
            == ai.history.changes.messages@[(owner->Main_0@, id@)]),
        owner is Main && res is Some && !ai.history.changes.messages@.dom().contains(
            (owner->Main_0@, id@),
        ) ==> (res matches Some((revision, _)) ==> revision == ai.history.committed),
{
}

/// A part that opens or closes moves where motion is on, and stands still where it is off.
pub proof fn law_parts_move_where_motion_is_on(
    parts: &mut Disclosures,
    key: String,
    expanded: bool,
    res: Option<DisclosureTimer>,
)
    requires
        call_ensures(Disclosures::begin_disclosure_motion, (parts, key, expanded), res),
    ensures
        res is Some <==> old(parts).motion_enabled,
        final(parts).motions.entries@.dom().contains(key@) <==> old(parts).motion_enabled,
        old(parts).motion_enabled ==> final(parts).motions.entries@[key@].expanded == expanded,
        final(parts).thinking == old(parts).thinking,
        final(parts).tools == old(parts).tools,
{
}

/// The editor lists what is enabled first and ticked, then what is not; what the client chose cannot
/// be changed, and the last one cannot be taken away.
pub proof fn law_the_editor_lists_enabled_algorithms_first(
    editor: &SshAlgorithmEditor,
    report: &SshCapabilityReport,
    res: AlgorithmDetail,
    at: int,
)
    requires
        call_ensures(SshAlgorithmEditor::detail_column, (editor, report), res),
        editor.category == SshAlgorithmCategory::Cipher,
        editor.preferences.cipher@.len() > 0,
        0 <= at < res.rows@.len(),
    ensures
        ({
            let own = editor.preferences.cipher@;
            let row = res.rows@[at];
            &&& !res.inherited
            &&& res.rows@.len() >= own.len()
            &&& row.checked <==> at < own.len()
            &&& at < own.len() ==> row.name@ == own[at]@
            &&& row.draggable <==> row.checked
            &&& row.disabled <==> row.checked && own.len() == 1
            &&& row.heading <==> at == own.len()
            &&& row.selected <==> editor.selected is Some && editor.selected->0@ == row.name@
        }),
{
    let own = seq_view(editor.preferences.cipher@);
    assert(own.len() == editor.preferences.cipher@.len());
    assert(editor.is_row(res.rows@[at], *report, at));
    if at < own.len() {
        assert(editor.listed(*report)[at] == own[at]);
    }
}

/// What the client chose is shown, and cannot be changed.
pub proof fn law_inherited_algorithms_cannot_be_changed(
    editor: &SshAlgorithmEditor,
    report: &SshCapabilityReport,
    res: AlgorithmDetail,
    at: int,
)
    requires
        call_ensures(SshAlgorithmEditor::detail_column, (editor, report), res),
        editor.category == SshAlgorithmCategory::Mac,
        editor.preferences.mac@.len() == 0,
        0 <= at < res.rows@.len(),
    ensures
        res.inherited,
        res.rows@[at].disabled,
        !res.rows@[at].draggable,
        res.hint@ == "ssh.form.ssh_algorithms_inherited_hint"@,
{
    assert(seq_view(editor.preferences.mac@).len() == 0);
    assert(editor.is_row(res.rows@[at], *report, at));
}

/// An arrow moves the selection by one row, and stops at the ends.
pub proof fn law_arrows_move_the_selection_by_one(
    editor: &mut SshAlgorithmEditor,
    report: &SshCapabilityReport,
    down: bool,
    key: EditorKey,
    res: bool,
    at: int,
)
    requires
        call_ensures(
            SshAlgorithmEditor::handle_ssh_algorithm_key,
            (editor, report, key, false),
            res,
        ),
        editor.open,
        !editor.field_focused,
        down ==> key == EditorKey::Down,
        !down ==> key == EditorKey::Up,
        0 <= at < editor.listed(*report).len(),
        editor.selected is Some,
        editor.selected->0@ == editor.listed(*report)[at],
        forall|j: int| 0 <= j < at ==> editor.listed(*report)[j] != editor.selected->0@,
    ensures
        ({
            let names = old(editor).listed(*report);
            &&& res
            &&& final(editor).selected is Some
            &&& down && at + 1 < names.len() ==> final(editor).selected->0@ == names[at + 1]
            &&& down && at + 1 == names.len() ==> final(editor).selected->0@ == names[at]
            &&& !down && at > 0 ==> final(editor).selected->0@ == names[at - 1]
            &&& !down && at == 0 ==> final(editor).selected->0@ == names[0]
            &&& final(editor).preferences == old(editor).preferences
        }),
{
    lemma_place(editor.listed(*report), editor.selected->0@, at);
}

proof fn lemma_place(list: Seq<Seq<char>>, name: Seq<char>, at: int)
    requires
        0 <= at < list.len(),
        list[at] == name,
        forall|j: int| 0 <= j < at ==> list[j] != name,
    ensures
        crate::workspace::ssh_algorithms::place_of(list, name) == at,
    decreases at,
{
    if at > 0 {
        assert(list.drop_first()[at - 1] == list[at]);
        assert forall|j: int| 0 <= j < at - 1 implies list.drop_first()[j] != name by {
            assert(list.drop_first()[j] == list[j + 1]);
        }
        lemma_place(list.drop_first(), name, at - 1);
    }
}

/// An algorithm is dropped in its own category alone.
pub proof fn law_algorithms_are_dropped_in_their_category(
    editor: &mut SshAlgorithmEditor,
    category: SshAlgorithmCategory,
    dragged: String,
    target: &str,
)
    requires
        call_ensures(SshAlgorithmEditor::drop_algorithm, (editor, category, dragged, target), ()),
    ensures
        category != old(editor).category ==> *final(editor) == *old(editor),
        category == old(editor).category ==> final(editor).selected == Some(dragged),
        category == SshAlgorithmCategory::Kex ==> final(editor).preferences.mac == old(
            editor).preferences.mac,
{
}

} // verus!
