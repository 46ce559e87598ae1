//! The form of a connection: what is saved of it, and how it connects.

use vstd::prelude::*;

use crate::text;
use crate::text::opt_view;
use crate::workspace::connection_form::{
    FormFault, NewConnectionForm, NewConnectionUpstreamProxyAuth, NewConnectionUpstreamProxyPolicy,
    SshAuthTab,
};
use crate::workspace::ftp_form::{
    attempt_result, show_ftp_profile, start_ftp_submission, FtpFormSwitch, FtpLaunch, FtpOutcome,
    FtpProfile, FtpSecurity, FtpStep, FtpSubmission, ConnectionFormState,
    NewConnectionSubmitAction,
};
use crate::workspace::saved_connections::{
    parse_port, parse_seconds, save_request_from_form, save_request_from_form_with_existing_auth,
    save_request_from_form_with_proxy_hop_prefix, secret_view, AuthView, SaveConnectionRequest,
    SaveFormError, SavedAuth,
};

verus! {

/// A form is refused for what is wrong with it: no host, or a port or a time that is none. Nothing of
/// a form that is refused is lost.
pub proof fn law_forms_are_refused_for_their_faults(
    form: &mut NewConnectionForm,
    id: Option<String>,
    res: Result<SaveConnectionRequest, SaveFormError>,
    port_text: &str,
    port: Option<u16>,
    seconds_text: &str,
    seconds: Option<u64>,
)
    requires
        call_ensures(save_request_from_form, (form, id), res),
        call_ensures(parse_port, (port_text,), port),
        port_text@ == form.port@,
        call_ensures(parse_seconds, (seconds_text,), seconds),
        seconds_text@ == form.connect_timeout_seconds_text@,
        form.proxy_hops@.len() == 0,
        form.upstream_proxy_policy == NewConnectionUpstreamProxyPolicy::UseGlobal,
    ensures
        res is Ok <==> text::trim(old(form).host@).len() > 0 && port is Some && seconds is Some,
        res is Err ==> *final(form) == *old(form),
        text::trim(old(form).host@).len() == 0 ==> res == Err::<SaveConnectionRequest, SaveFormError>(
            SaveFormError::HostRequired,
        ),
        text::trim(old(form).host@).len() > 0 && port is None ==> res == Err::<
            SaveConnectionRequest,
            SaveFormError,
        >(SaveFormError::InvalidPort),
        text::trim(old(form).host@).len() > 0 && port is Some && seconds is None ==> res == Err::<
            SaveConnectionRequest,
            SaveFormError,
        >(SaveFormError::InvalidTimeout),
        res is Ok ==> {
            let request = res->Ok_0;
            &&& request.port == port->0
            &&& request.connect_timeout_seconds == seconds->0
        },
{
}

/// What is saved is what the form says.
pub proof fn law_what_the_form_says_is_saved(
    form: &mut NewConnectionForm,
    id: Option<String>,
    res: Result<SaveConnectionRequest, SaveFormError>,
)
    requires
        call_ensures(save_request_from_form, (form, id), res),
        res is Ok,
    ensures
        ({
            let request = res->Ok_0;
            &&& request.id == id
            &&& request.host@ == text::trim(old(form).host@)
            &&& request.username@ == text::trim(old(form).username@)
            &&& request.notes@ == old(form).notes@
            &&& request.group@ == old(form).group@
            &&& request.agent_forwarding == old(form).agent_forwarding
            &&& request.legacy_ssh_compatibility == old(form).legacy_ssh_compatibility
            &&& request.dedicated_new_terminal_connection == old(
                form).dedicated_new_terminal_connection
            &&& opt_view(request.icon) == Some(old(form).icon@)
            &&& opt_view(request.color) == Some(old(form).color@)
            &&& opt_view(request.icon_background_color) == Some(old(form).icon_background_color@)
            &&& request.proxy_chain@.len() == old(form).proxy_hops@.len()
            &&& request.proxy_command is Some <==> old(form).proxy_command_enabled
            &&& text::trim(old(form).name@).len() > 0 ==> request.name@ == text::trim(old(form).name@)
            &&& text::trim(old(form).name@).len() == 0 ==> request.name@ == text::trim(
                old(form).username@,
            ) + "@"@ + text::trim(old(form).host@)
            &&& text::trim(old(form).identity_agent@).len() == 0 ==> request.identity_agent is None
            &&& text::trim(old(form).identity_agent@).len() > 0 ==> opt_view(request.identity_agent)
                == Some(text::trim(old(form).identity_agent@))
            &&& request.upstream_proxy is UseGlobal <==> old(form).upstream_proxy_policy
                == NewConnectionUpstreamProxyPolicy::UseGlobal
        }),
{
}

/// How a connection proves who it is goes by the form's tab. A new password is handed over and leaves
/// the form, where it is to be saved and not empty; so is a passphrase.
pub proof fn law_credentials_are_handed_over_once(
    form: &mut NewConnectionForm,
    id: Option<String>,
    res: Result<SaveConnectionRequest, SaveFormError>,
)
    requires
        call_ensures(save_request_from_form, (form, id), res),
        res is Ok,
    ensures
        ({
            let auth = res->Ok_0.auth;
            let before = *old(form);
            let after = *final(form);
            let hands = before.auth_tab == SshAuthTab::Password && before.save_password
                && !before.empty_password && before.password@.len() > 0;
            &&& auth is Password <==> before.auth_tab == SshAuthTab::Password
            &&& auth is Key <==> before.auth_tab == SshAuthTab::SshKey
            &&& auth is Agent <==> before.auth_tab == SshAuthTab::Agent
            &&& auth is KeyboardInteractive <==> before.auth_tab == SshAuthTab::TwoFactor
            &&& hands ==> secret_view(auth->plaintext_password) == Some(before.password@)
                && after.password@.len() == 0
            &&& auth is Password && !hands ==> auth->plaintext_password is None && after.password@
                == before.password@
            &&& auth is Password ==> auth->empty_password == before.empty_password
                && auth->keychain_id is None
            &&& auth is Key ==> auth->key_path@ == before.key_path@ && (auth->has_passphrase
                <==> before.passphrase@.len() > 0) && after.passphrase@.len() == 0
            &&& auth is Key && before.passphrase@.len() > 0 ==> secret_view(
                auth->plaintext_passphrase,
            ) == Some(before.passphrase@)
        }),
{
    let auth = res->Ok_0.auth;
    assert(auth@ == crate::workspace::saved_connections::auth_of(*old(form), None));
}

/// A password that is stored stays where it is, unless another one was entered.
pub proof fn law_stored_passwords_stay(
    form: &mut NewConnectionForm,
    id: Option<String>,
    existing: &SavedAuth,
    res: Result<SaveConnectionRequest, SaveFormError>,
)
    requires
        call_ensures(
            save_request_from_form_with_existing_auth,
            (form, id, Some(existing)),
            res,
        ),
        res is Ok,
        existing is Password,
        existing->keychain_id is Some,
        form.auth_tab == SshAuthTab::Password,
        form.save_password,
        !form.empty_password,
    ensures
        ({
            let auth = res->Ok_0.auth;
            let untouched = !old(form).password_loaded || old(form).password_from_store;
            &&& untouched ==> opt_view(auth->keychain_id) == opt_view(existing->keychain_id)
                && auth->plaintext_password is None && final(form).password@ == old(form).password@
            &&& !untouched ==> auth->keychain_id is None
            &&& !untouched && old(form).password@.len() > 0 ==> secret_view(auth->plaintext_password)
                == Some(old(form).password@)
        }),
{
    let auth = res->Ok_0.auth;
    assert(auth@ == crate::workspace::saved_connections::auth_of(*old(form), Some(*existing)));
}

/// A form is sent on once: while it is pending nothing happens.
pub proof fn law_pending_forms_wait(
    form: &mut NewConnectionForm,
    action: NewConnectionSubmitAction,
    base: FtpProfile,
    ungrouped: &str,
    res: Option<FtpSubmission>,
    port_text: &str,
    port: Option<u16>,
    seconds_text: &str,
    seconds: Option<u64>,
)
    requires
        call_ensures(start_ftp_submission, (form, action, base, ungrouped), res),
        call_ensures(parse_port, (port_text,), port),
        port_text@ == form.port@,
        call_ensures(parse_seconds, (seconds_text,), seconds),
        seconds_text@ == form.connect_timeout_seconds_text@,
    ensures
        res is Some <==> !old(form).pending && port is Some && seconds is Some,
        old(form).pending || res is Some ==> *final(form) == *old(form),
        !old(form).pending && res is None ==> final(form).error is Some,
        !old(form).pending && port is None ==> final(form).error->0@ == FormFault::Key(
            "modals.new_connection.ftp_invalid"@,
        ),
        !old(form).pending && port is Some && seconds is None ==> final(form).error->0@
            == FormFault::Key("ssh.form.connect_timeout_invalid"@),
        res is Some ==> {
            let submission = res->0;
            let profile = submission.profile;
            &&& submission.action == action
            &&& submission.saves <==> action == NewConnectionSubmitAction::Save || action
                == NewConnectionSubmitAction::SaveAndConnect || old(form).ftp_profile_id is Some
            &&& submission.step == FtpStep::Validate
            &&& submission.password@.len() == 0
            &&& profile.id == base.id
            &&& profile.port == port->0
            &&& profile.connect_timeout_seconds == seconds->0
            &&& profile.name@ == old(form).name@
            &&& profile.host@ == text::trim(old(form).host@)
            &&& profile.username@ == text::trim(old(form).username@)
            &&& profile.initial_path@ == old(form).sftp_initial_remote_path@
            &&& profile.security == FtpSecurity::ExplicitTls <==> old(form).ftp_tls
            &&& profile.group is None <==> text::trim(old(form).group@).len() == 0 || old(
                form).group@ == ungrouped@
            &&& profile.group is Some ==> profile.group->0@ == old(form).group@
        },
{
    if res is Some {
        let group = res->0.profile.group;
        assert(opt_view(group) is Some <==> group is Some);
    }
}

/// A password that would break a command is refused, as is what the store finds invalid; without a
/// password the stored one is read, and an entered one leaves the form.
pub proof fn law_passwords_are_sound(
    submission: &mut FtpSubmission,
    form: &mut NewConnectionForm,
    valid: bool,
    res: bool,
)
    requires
        call_ensures(FtpSubmission::on_validated, (submission, form, valid), res),
        form.upstream_proxy_policy == NewConnectionUpstreamProxyPolicy::UseGlobal,
    ensures
        ({
            let entered = old(form).password@;
            let breaks = entered.contains('\r') || entered.contains('\n') || entered.contains('\0');
            let stored = entered.len() == 0 && old(submission).profile.password_keychain_id is Some;
            &&& res <==> valid && !breaks
            &&& !res ==> *final(submission) == *old(submission) && final(form).error is Some
                && final(form).error->0@ == FormFault::Key("modals.new_connection.ftp_invalid"@)
                && final(form).password@ == entered
            &&& res && stored ==> final(submission).step == FtpStep::ReadPassword
            &&& res && !stored ==> final(submission).password@ == entered && final(
                form).password@.len() == 0
            &&& res && !stored && old(submission).saves ==> final(submission).step == FtpStep::Store
            &&& res && !stored && !old(submission).saves ==> final(submission).step
                == FtpStep::ResolveProxy
        }),
{
    let entered = old(form).password@;
    reveal(FtpSubmission::routed);
    assert(crate::workspace::ftp_form::breaks_commands(entered) <==> entered.contains('\r')
        || entered.contains('\n') || entered.contains('\0')) by {
        if crate::workspace::ftp_form::breaks_commands(entered) {
            let i = choose|i: int|
                0 <= i < entered.len() && {
                    ||| #[trigger] entered[i] == '\r'
                    ||| entered[i] == '\n'
                    ||| entered[i] == '\0'
                };
            assert(entered.contains(entered[i]));
        }
    }
}

/// A password that was read is used as it is, and none is an empty one; without an answer the form
/// says why.
pub proof fn law_read_passwords_are_used(
    submission: &mut FtpSubmission,
    form: &mut NewConnectionForm,
    result: Result<Option<String>, String>,
    res: bool,
)
    requires
        call_ensures(FtpSubmission::on_password, (submission, form, result), res),
    ensures
        res <==> result is Ok,
        res ==> *final(form) == *old(form),
        result matches Ok(Some(password)) ==> final(submission).password@ == password@,
        result matches Ok(None) ==> final(submission).password@.len() == 0,
        res && old(submission).saves ==> final(submission).step == FtpStep::Store,
        res && !old(submission).saves ==> final(submission).step == FtpStep::ResolveProxy,
        result matches Err(error) ==> final(form).error is Some && final(form).error->0@
            == FormFault::Message(error@) && *final(submission) == *old(submission),
{
}

/// A profile that was stored is the one to connect with; where its password was stored too it is read
/// back before.
pub proof fn law_stored_profiles_are_used(
    submission: &mut FtpSubmission,
    form: &mut NewConnectionForm,
    result: Result<FtpProfile, String>,
    res: bool,
    password: Option<String>,
)
    requires
        call_ensures(FtpSubmission::on_stored, (submission, form, result), res),
        call_ensures(FtpSubmission::password_to_store, (&*old(submission), &*old(form)), password),
    ensures
        res <==> result is Ok,
        password is Some <==> old(form).save_password,
        password is Some ==> password->0@ == old(submission).password@,
        result matches Ok(profile) ==> final(submission).profile == profile,
        res && old(form).save_password ==> final(submission).step == FtpStep::ReadStoredPassword,
        res && !old(form).save_password ==> final(submission).step == FtpStep::ResolveProxy,
        !res ==> *final(submission) == *old(submission) && final(form).error is Some,
{
    assert(opt_view(password) is Some <==> password is Some);
}

/// A form that is ready waits for its connection, unless it was only saved, and knows the profile it
/// was saved as.
pub proof fn law_ready_forms_wait_for_their_connection(
    submission: &mut FtpSubmission,
    form: &mut NewConnectionForm,
    res: bool,
)
    requires
        call_ensures(FtpSubmission::on_proxy, (submission, form, Ok::<(), String>(())), res),
    ensures
        res,
        final(submission).step == FtpStep::Ready,
        final(submission).profile == old(submission).profile,
        final(form).pending <==> old(submission).action != NewConnectionSubmitAction::Save,
        final(form).error is None,
        old(submission).saves ==> final(form).ftp_profile_id == Some(old(submission).profile.id),
        !old(submission).saves ==> final(form).ftp_profile_id == old(form).ftp_profile_id,
{
}

/// Saving closes the form; connecting leaves it open, waiting for the attempt that was begun.
pub proof fn law_saved_forms_close(
    state: &mut ConnectionFormState,
    submission: &FtpSubmission,
    res: FtpLaunch,
)
    requires
        call_ensures(ConnectionFormState::launch_ftp_submission, (state, submission), res),
        state.form is Some,
    ensures
        res.refreshes_sync == submission.saves,
        res.attempt is Some <==> submission.action == NewConnectionSubmitAction::Connect
            || submission.action == NewConnectionSubmitAction::SaveAndConnect,
        final(state).form is Some <==> res.attempt is Some,
        res.attempt is Some ==> final(state).form->0.ftp_attempt == res.attempt,
{
}

/// Only the attempt that a form waits for ends it: a connection closes the form, a failure is shown in
/// it and lets it be sent again.
pub proof fn law_attempts_end_their_form(
    state: &mut ConnectionFormState,
    attempt: &str,
    result: Result<(), String>,
    saved: bool,
    res: FtpOutcome,
)
    requires
        call_ensures(
            ConnectionFormState::finish_ftp_attempt,
            (state, attempt, result, saved),
            res,
        ),
    ensures
        ({
            let waits = old(state).form is Some && old(state).form->0.ftp_attempt is Some && old(
                state).form->0.ftp_attempt->0@ == attempt@;
            &&& !waits ==> res == FtpOutcome::TooLate && *final(state) == *old(state)
            &&& waits && result is Ok ==> res == (FtpOutcome::Connected { mark_used: saved })
                && final(state).form is None
            &&& waits && result is Err ==> {
                let form = final(state).form->0;
                &&& res == FtpOutcome::Failed
                &&& final(state).form is Some
                &&& !form.pending
                &&& form.ftp_attempt is None
                &&& form.error is Some
                &&& form.error->0@ == FormFault::Failed(
                    "modals.new_connection.ftp_failed"@,
                    result->Err_0@,
                )
                &&& form.host == old(state).form->0.host
                &&& form.username == old(state).form->0.username
                &&& form.password == old(state).form->0.password
            }
        }),
{
}

/// An attempt that ended without a word failed.
pub proof fn law_attempts_without_a_word_failed(ended: Option<Result<(), String>>, res: Result<(), String>)
    requires
        call_ensures(attempt_result, (ended,), res),
    ensures
        ended is None ==> res is Err && res->Err_0@ == "FTP connection task ended"@,
        ended is Some ==> res == ended->0,
{
}

/// A switch turns what it stands for, and nothing else.
pub proof fn law_switches_turn_one_thing(state: &mut ConnectionFormState, switch: FtpFormSwitch)
    requires
        call_ensures(ConnectionFormState::flip_ftp_switch, (state, switch), ()),
        state.form is Some,
    ensures
        final(state).form is Some,
        final(state).form->0.save_password != old(state).form->0.save_password <==> switch
            == FtpFormSwitch::SavePassword,
        final(state).form->0.ftp_tls != old(state).form->0.ftp_tls <==> switch == FtpFormSwitch::Tls,
        final(state).form->0.host == old(state).form->0.host,
        final(state).form->0.password == old(state).form->0.password,
{
}

/// A profile that is edited is shown as it was stored.
pub proof fn law_profiles_are_shown_as_stored(form: &mut NewConnectionForm, profile: FtpProfile)
    requires
        call_ensures(show_ftp_profile, (form, profile), ()),
    ensures
        final(form).ftp_profile_id == Some(profile.id),
        final(form).ftp_tls <==> profile.security == FtpSecurity::ExplicitTls,
        final(form).name@ == profile.name@,
        final(form).host@ == profile.host@,
        final(form).username@ == profile.username@,
        final(form).port@ == text::decimal(profile.port as nat),
        final(form).connect_timeout_seconds_text@ == text::decimal(
            profile.connect_timeout_seconds as nat,
        ),
        final(form).sftp_initial_remote_path@ == profile.initial_path@,
        final(form).save_password <==> profile.password_keychain_id is Some,
        profile.group is Some ==> final(form).group@ == profile.group->0@,
        profile.notes is Some ==> final(form).notes@ == profile.notes->0@,
        profile.group is None ==> final(form).group@.len() == 0,
{
}

} // verus!
