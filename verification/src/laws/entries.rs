//! Entries that are looked up and put in their place.

use vstd::prelude::*;

use crate::ai_state::entity::AiWorkspaceEntity;
use crate::ai_state::history::event_position;
use crate::ai_state::journal::{HistoryEvent, HistoryMutation, Mutation, RevisionClock};
use crate::ai_state::model::{conversation_position, find_conversation, AiConversation};
use crate::text;
use crate::workspace::agent_launch::AgentAttention;
use crate::workspace::app::WorkspaceApp;
use crate::workspace::cloud_sync_file::CloudSyncFile;
use crate::workspace::connection_form::{
    NewConnectionForm, NewConnectionUpstreamProxyAuth, NewConnectionUpstreamProxyPolicy,
};
use crate::workspace::labels::Label;
use crate::workspace::saved_connections::{
    port_of, saved_upstream_proxy_policy_from_form, secret_view, SaveFormError,
    SavedUpstreamProxyAuth, SavedUpstreamProxyPolicy,
};
use crate::workspace::settings_events::{deeds, NoticeVariant, NoticeWords, SettingsAction, SettingsDeed};
use crate::workspace::ssh_algorithms::{SshAlgorithmEditor, SshAlgorithmPreferences};

verus! {

/// A conversation is found exactly where one has the name, and then it is the first of them.
pub proof fn law_the_first_conversation_of_a_name_is_found(
    conversations: &Vec<AiConversation>,
    id: &str,
    res: Option<usize>,
    at: int,
)
    requires
        call_ensures(find_conversation, (conversations, id), res),
        0 <= at < conversations@.len(),
    ensures
        conversations@[at].id@ == id@ ==> res is Some && res->0 <= at,
        res is Some ==> res->0 < conversations@.len() && conversations@[res->0 as int].id@ == id@,
{
    if conversations@[at].id@ == id@ {
        lemma_no_later_than(conversations@, id@, at);
    }
}

proof fn lemma_no_later_than(conversations: Seq<AiConversation>, id: Seq<char>, at: int)
    requires
        0 <= at < conversations.len(),
        conversations[at].id@ == id,
    ensures
        conversation_position(conversations, id) <= at,
    decreases conversations.len(),
{
    if conversations[0].id@ != id {
        lemma_no_later_than(conversations.drop_first(), id, at - 1);
    }
}

/// An event is stored once: under a name that is pending already the newer event takes the place of
/// the older one, else it comes last. Either way it is there with the next revision.
pub proof fn law_events_are_pending_once(
    ai: &mut AiWorkspaceEntity,
    conversation: &str,
    family: &str,
    id: &str,
    event: HistoryEvent,
    clock: &mut RevisionClock,
    at: int,
)
    requires
        call_ensures(
            AiWorkspaceEntity::history_event,
            (ai, conversation, family, id, event, clock),
            (),
        ),
        0 <= at < ai.history.changes.extra@.len(),
    ensures
        ({
            let before = old(ai).history.changes.extra@;
            let after = final(ai).history.changes.extra@;
            &&& final(clock).last == old(clock).last + 1
            &&& final(ai).history.changes.revision == final(clock).last
            &&& exists|i: int|
                0 <= i < after.len() && (#[trigger] after[i]).0 == final(clock).last && after[i].1@
                    == (Mutation::PutEvent {
                    conversation_id: conversation@,
                    family: family@,
                    id: id@,
                    event: event@,
                    revision: final(clock).last,
                })
            &&& names_event(before[at].1, conversation@, family@, id@) ==> after.len() == before.len()
            &&& !names_event(before[at].1, conversation@, family@, id@) ==> after[at] == before[at]
            &&& before.len() <= after.len() <= before.len() + 1
        }),
{
    let before = old(ai).history.changes.extra@;
    let after = final(ai).history.changes.extra@;
    let place = event_position(before, conversation@, family@, id@);
    lemma_event_place(before, conversation@, family@, id@, at);
    if place < before.len() {
        assert(after[place].0 == final(clock).last);
    } else {
        assert(after.last().0 == final(clock).last);
        assert(after[after.len() - 1] == after.last());
        assert(after.drop_last()[at] == after[at]);
    }
}

/// A change that stores the event of this name.
pub open spec fn names_event(
    change: HistoryMutation,
    conversation: Seq<char>,
    family: Seq<char>,
    id: Seq<char>,
) -> bool {
    change@ matches Mutation::PutEvent { conversation_id, family: own, id: named, .. }
        && conversation_id == conversation && own == family && named == id
}

proof fn lemma_event_place(
    extra: Seq<(u64, HistoryMutation)>,
    conversation: Seq<char>,
    family: Seq<char>,
    id: Seq<char>,
    at: int,
)
    requires
        0 <= at < extra.len(),
    ensures
        ({
            let place = event_position(extra, conversation, family, id);
            &&& 0 <= place <= extra.len()
            &&& names_event(extra[at].1, conversation, family, id) ==> place <= at
            &&& place < extra.len() ==> names_event(extra[place].1, conversation, family, id)
        }),
    decreases extra.len(),
{
    if !extra[0].1.stores_event(conversation, family, id) {
        let rest = extra.drop_first();
        if rest.len() > 0 {
            lemma_event_place(rest, conversation, family, id, if at > 0 {
                at - 1
            } else {
                0
            });
        }
        let later = event_position(rest, conversation, family, id);
        assert(rest.len() == 0 ==> later == 0);
        assert(later < rest.len() ==> rest[later] == extra[later + 1]);
    }
}

/// A run that begins is recorded behind everything that is pending, with the next revision.
pub proof fn law_begun_runs_are_recorded_last(
    ai: &mut AiWorkspaceEntity,
    conversation: &str,
    run: &str,
    clock: &mut RevisionClock,
)
    requires
        call_ensures(AiWorkspaceEntity::history_agent_created, (ai, conversation, run, clock), ()),
    ensures
        ({
            let before = old(ai).history.changes.extra@;
            let after = final(ai).history.changes.extra@;
            &&& final(clock).last == old(clock).last + 1
            &&& after.len() == before.len() + 1
            &&& after.drop_last() == before
            &&& after.last().1@ == (Mutation::CreateAgentHistory {
                conversation_id: conversation@,
                run_id: run@,
                revision: final(clock).last,
            })
            &&& final(ai).history.changes.messages == old(ai).history.changes.messages
        }),
{
}

/// The proxy of a form is its own where it names one, with its host trimmed. Only its port can be at
/// fault. A password that is not empty is handed over and leaves the form.
pub proof fn law_forms_name_their_proxy(
    form: &mut NewConnectionForm,
    res: Result<SavedUpstreamProxyPolicy, SaveFormError>,
)
    requires
        call_ensures(saved_upstream_proxy_policy_from_form, (form,), res),
    ensures
        ({
            let before = *old(form);
            let own = before.upstream_proxy_policy == NewConnectionUpstreamProxyPolicy::Custom;
            let asks = before.upstream_proxy_auth == NewConnectionUpstreamProxyAuth::Password;
            let filled = before.upstream_proxy_password@.len() > 0;
            &&& res is Err <==> own && port_of(before.upstream_proxy_port@) is None
            &&& res is Err ==> res->Err_0 == SaveFormError::InvalidProxyPort && *final(form) == before
            &&& res matches Ok(policy) ==> {
                &&& policy is UseGlobal <==> !own
                &&& policy matches SavedUpstreamProxyPolicy::Custom { proxy } ==> {
                    &&& proxy.host@ == text::trim(before.upstream_proxy_host@)
                    &&& proxy.port as nat == port_of(before.upstream_proxy_port@)->0
                    &&& proxy.auth is Nothing <==> !asks
                    &&& proxy.auth matches SavedUpstreamProxyAuth::Password {
                        username,
                        plaintext_password,
                    } ==> {
                        &&& username@ == text::trim(before.upstream_proxy_username@)
                        &&& plaintext_password is Some <==> filled
                        &&& filled ==> secret_view(plaintext_password) == Some(
                            before.upstream_proxy_password@,
                        )
                    }
                }
                &&& own && asks && filled ==> final(form).upstream_proxy_password@.len() == 0
                &&& !(own && asks && filled) ==> final(form).upstream_proxy_password
                    == before.upstream_proxy_password
                &&& final(form).upstream_proxy_host == before.upstream_proxy_host
                &&& final(form).password == before.password
            }
        }),
{
}

/// A theme that was saved is stored; one that was brought in is told of by its name.
pub proof fn law_saved_themes_are_stored(
    app: &WorkspaceApp,
    name: Option<String>,
    res: Vec<SettingsAction>,
)
    requires
        call_ensures(WorkspaceApp::on_theme_saved, (app, name), res),
    ensures
        res@.len() == if name is Some {
            2int
        } else {
            1int
        },
        res@[0]@ == SettingsDeed::StoreSettings,
        name is Some ==> {
            &&& res@[1]@ matches SettingsDeed::Notice { words, variant }
            &&& variant == NoticeVariant::Success
            &&& words matches NoticeWords::Lookup(label)
            &&& label.key == "settings_view.appearance.theme_import_success"@
            &&& label.values == seq![("name"@, name->0@)]
        },
{
    let done = deeds(res@);
    assert(done.len() == res@.len());
    assert(done[0] == res@[0]@);
    if name is Some {
        assert(done[1] == res@[1]@);
    }
}

/// The user is told of a run that waits, unless they look at its conversation and, for the message of
/// a run, at the run itself.
pub proof fn law_waiting_runs_are_told_of(
    app: &WorkspaceApp,
    conversation: &str,
    message: &str,
    label: &str,
    res: Option<AgentAttention>,
)
    requires
        call_ensures(WorkspaceApp::notify_ai_agent_attention, (app, conversation, message, label), res),
    ensures
        ({
            let ai = app.ai_entity;
            let shown = ai.conversation_state.active_conversation_id;
            let here = shown is Some && shown->0@ == conversation@;
            let of_run = ai.agents.message_runs@.dom().contains(message@)
                && ai.agents.records@.dom().contains(ai.agents.message_runs@[message@].run@);
            let record = ai.agents.records@[ai.agents.message_runs@[message@].run@];
            let open = ai.agents.detail is Some && ai.agents.detail->0@
                == record.snapshot.run.run_id@;
            &&& !here ==> res is Some
            &&& here && !of_run ==> res is None
            &&& here && of_run ==> (res is None <==> open)
            &&& res matches Some(notice) ==> {
                &&& notice.label@ == label@
                &&& notice.dedupe_key@ == "agent-attention:"@ + conversation@ + ":"@ + message@
                    + ":"@ + label@
            }
        }),
{
}

/// Switching the agents of a conversation turns nothing else round, and twice is as before.
pub proof fn law_agents_are_switched(app: &mut WorkspaceApp, conversation: &str, at: int, other: int)
    requires
        call_ensures(WorkspaceApp::toggle_conversation_agents, (app, conversation), ()),
        0 <= at < app.ai_entity.conversation_state.conversations@.len(),
        app.ai_entity.conversation_state.conversations@[at].id@ == conversation@,
        forall|i: int|
            0 <= i < at ==> (#[trigger] app.ai_entity.conversation_state.conversations@[i]).id@
                != conversation@,
        0 <= other < app.ai_entity.conversation_state.conversations@.len(),
    ensures
        ({
            let before = old(app).ai_entity.conversation_state.conversations@;
            let after = final(app).ai_entity.conversation_state.conversations@;
            let enabled = if before[at].agent_options is Some {
                before[at].agent_options->0.enabled
            } else {
                old(app).ai_entity.agents.default_options.enabled
            };
            &&& after.len() == before.len()
            &&& after[at].agent_options is Some
            &&& after[at].agent_options->0.enabled == !enabled
            &&& after[at].messages == before[at].messages
            &&& other != at ==> after[other] == before[other]
        }),
{
    let before = old(app).ai_entity.conversation_state.conversations@;
    lemma_no_later_than(before, conversation@, at);
    lemma_no_earlier_than(before, conversation@, at);
}

proof fn lemma_no_earlier_than(conversations: Seq<AiConversation>, id: Seq<char>, at: int)
    requires
        0 <= at < conversations.len(),
        forall|i: int| 0 <= i < at ==> (#[trigger] conversations[i]).id@ != id,
    ensures
        conversation_position(conversations, id) >= at,
    decreases conversations.len(),
{
    if at > 0 {
        let rest = conversations.drop_first();
        assert forall|i: int| 0 <= i < at - 1 implies (#[trigger] rest[i]).id@ != id by {
            assert(rest[i] == conversations[i + 1]);
        }
        lemma_no_earlier_than(rest, id, at - 1);
    } else {
        lemma_position_counts(conversations, id);
    }
}

proof fn lemma_position_counts(conversations: Seq<AiConversation>, id: Seq<char>)
    ensures
        conversation_position(conversations, id) >= 0,
    decreases conversations.len(),
{
    if conversations.len() > 0 && conversations[0].id@ != id {
        lemma_position_counts(conversations.drop_first(), id);
    }
}

/// The answer to whether a certificate is remembered turns round while it is asked about, in its tab
/// alone; nothing is answered by that.
pub proof fn law_remembering_turns_round(app: &mut WorkspaceApp, tab: u64, challenge: &str, other: u64)
    requires
        call_ensures(
            WorkspaceApp::toggle_remote_desktop_certificate_remember,
            (app, tab, challenge),
            (),
        ),
        app.remote_sessions@.dom().contains(tab),
        app.remote_sessions@[tab].is_asked(challenge@),
        other != tab,
    ensures
        ({
            let before = old(app).remote_sessions@[tab];
            let after = final(app).remote_sessions@[tab];
            &&& after.certificate_challenge is Some
            &&& after.certificate_challenge->0.remember == !before.certificate_challenge->0.remember
            &&& after.certificate_challenge->0.certificate
                == before.certificate_challenge->0.certificate
            &&& after.asked() == before.asked()
            &&& final(app).remote_sessions@.dom().contains(other) <==> old(
                app).remote_sessions@.dom().contains(other)
            &&& final(app).remote_sessions@[other] == old(app).remote_sessions@[other]
        }),
{
}

/// A file operation can start where none is under way, neither with the store nor with a local file.
pub proof fn law_file_operations_start_when_idle(sync: &CloudSyncFile, res: bool)
    requires
        call_ensures(CloudSyncFile::can_start, (sync,), res),
    ensures
        res <==> !sync.operation_in_flight && !sync.local_file_running,
{
}

/// The editor says how many categories are the user's own, and of none that all are as they come.
pub proof fn law_the_navigation_counts_own_categories(editor: &SshAlgorithmEditor, res: Label)
    requires
        call_ensures(SshAlgorithmEditor::navigation_status, (editor,), res),
    ensures
        ({
            let own: SshAlgorithmPreferences = editor.preferences;
            let none = own.kex@.len() == 0 && own.host_key@.len() == 0 && own.cipher@.len() == 0
                && own.mac@.len() == 0 && own.compression@.len() == 0;
            &&& none <==> res@.key == "ssh.form.ssh_algorithms_default"@
            &&& !none ==> res@.key == "ssh.form.ssh_algorithms_custom_count"@ && res@.values.len() == 1
            &&& own.kex@.len() > 0 && own.host_key@.len() > 0 && own.cipher@.len() > 0
                && own.mac@.len() > 0 && own.compression@.len() > 0 ==> res@.values[0] == (
                "count"@,
                text::decimal(5),
            )
        }),
{
    reveal_strlit("ssh.form.ssh_algorithms_default");
    reveal_strlit("ssh.form.ssh_algorithms_custom_count");
    assert("ssh.form.ssh_algorithms_default"@.len() != "ssh.form.ssh_algorithms_custom_count"@.len());
}

} // verus!
