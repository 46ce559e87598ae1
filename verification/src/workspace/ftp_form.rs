//! Connecting to an FTP server from the form.

use vstd::prelude::*;

use crate::ids::random_id;
use crate::text;
use crate::text::opt_view;
use crate::workspace::app::WorkspaceApp;
use crate::workspace::connection_form::{
    FormError, FormFault, NewConnectionForm, NewConnectionTransport,
};
use crate::workspace::labels::{Piece, PieceView};
use crate::workspace::saved_connections::{
    is_upstream_proxy, parse_port, parse_seconds, port_of, proxy_taken,
    saved_upstream_proxy_policy_from_form, seconds_of, SaveFormError, SavedUpstreamProxyPolicy,
};

verus! {

#[derive(Clone, Copy, PartialEq, Eq, Structural, Debug)]
pub enum FtpSecurity {
    Plain,
    ExplicitTls,
}

#[derive(Clone, Copy, PartialEq, Eq, Structural, Debug)]
pub enum NewConnectionSubmitAction {
    Connect,
    Save,
    SaveAndConnect,
}

/// A stored FTP server.
pub struct FtpProfile {
    pub id: String,
    pub name: String,
    pub host: String,
    pub port: u16,
    pub username: String,
    pub security: FtpSecurity,
    pub connect_timeout_seconds: u64,
    pub group: Option<String>,
    pub notes: Option<String>,
    pub initial_path: String,
    pub icon: Option<String>,
    pub color: Option<String>,
    pub icon_background_color: Option<String>,
    pub upstream_proxy: SavedUpstreamProxyPolicy,
    pub password_keychain_id: Option<String>,
}

/// What a submission waits for.
#[derive(Clone, Copy, PartialEq, Eq, Structural, Debug)]
pub enum FtpStep {
    /// Whether the profile can be used.
    Validate,
    /// The stored password.
    ReadPassword,
    /// The profile in the store.
    Store,
    /// The password in the store.
    ReadStoredPassword,
    /// The proxy that the profile names.
    ResolveProxy,
    Ready,
}

/// A form that is being turned into a connection.
pub struct FtpSubmission {
    pub action: NewConnectionSubmitAction,
    pub profile: FtpProfile,
    pub password: String,
    /// Whether the profile is stored.
    pub saves: bool,
    pub step: FtpStep,
}

pub open spec fn security_of(tls: bool) -> FtpSecurity {
    if tls {
        FtpSecurity::ExplicitTls
    } else {
        FtpSecurity::Plain
    }
}

/// The group that a form names; one without a group says so in the user's language.
pub open spec fn group_of(group: Seq<char>, ungrouped: Seq<char>) -> Option<Seq<char>> {
    if text::trim(group).len() == 0 || group == ungrouped {
        None
    } else {
        Some(group)
    }
}

/// The profile that a form describes, on the ground of a stored or a new one.
pub open spec fn is_draft(profile: FtpProfile, base: FtpProfile, form: NewConnectionForm, ungrouped: Seq<char>) -> bool {
    &&& profile.id == base.id
    &&& profile.password_keychain_id == base.password_keychain_id
    &&& profile.upstream_proxy == base.upstream_proxy
    &&& profile.name@ == form.name@
    &&& profile.host@ == text::trim(form.host@)
    &&& profile.username@ == text::trim(form.username@)
    &&& profile.security == security_of(form.ftp_tls)
    &&& Some(profile.port as nat) == port_of(form.port@)
    &&& Some(profile.connect_timeout_seconds as nat) == seconds_of(form.connect_timeout_seconds_text@)
    &&& opt_view(profile.group) == group_of(form.group@, ungrouped)
    &&& opt_view(profile.notes) == Some(form.notes@)
    &&& profile.initial_path@ == form.sftp_initial_remote_path@
    &&& opt_view(profile.icon) == Some(form.icon@)
    &&& opt_view(profile.color) == Some(form.color@)
    &&& opt_view(profile.icon_background_color) == Some(form.icon_background_color@)
}

/// Only the error differs, and says this.
pub open spec fn refused(after: NewConnectionForm, before: NewConnectionForm, fault: FormFault) -> bool {
    &&& after == (NewConnectionForm { error: after.error, ..before })
    &&& after.error is Some
    &&& after.error->0@ == fault
}

/// Why a form cannot be drafted: the port first, then the time to connect.
pub open spec fn draft_fault(form: NewConnectionForm) -> Option<FormFault> {
    if port_of(form.port@) is None {
        Some(FormFault::Key("modals.new_connection.ftp_invalid"@))
    } else if seconds_of(form.connect_timeout_seconds_text@) is None {
        Some(FormFault::Key("ssh.form.connect_timeout_invalid"@))
    } else {
        None
    }
}

fn draft(form: &NewConnectionForm, base: FtpProfile, ungrouped: &str, port: u16, connect_timeout_seconds: u64) -> (res: FtpProfile)
    requires
        Some(port as nat) == port_of(form.port@),
        Some(connect_timeout_seconds as nat) == seconds_of(form.connect_timeout_seconds_text@),
    ensures
        is_draft(res, base, *form, ungrouped@),
{
    let trimmed = text::trimmed(form.group.as_str());
    let group = if trimmed.as_str().is_empty() || text::same(form.group.as_str(), ungrouped) {
        None
    } else {
        Some(form.group.clone())
    };
    FtpProfile {
        name: form.name.clone(),
        host: text::trimmed(form.host.as_str()),
        port,
        username: text::trimmed(form.username.as_str()),
        security: if form.ftp_tls {
            FtpSecurity::ExplicitTls
        } else {
            FtpSecurity::Plain
        },
        connect_timeout_seconds,
        group,
        notes: Some(form.notes.clone()),
        initial_path: form.sftp_initial_remote_path.clone(),
        icon: Some(form.icon.clone()),
        color: Some(form.color.clone()),
        icon_background_color: Some(form.icon_background_color.clone()),
        id: base.id,
        upstream_proxy: base.upstream_proxy,
        password_keychain_id: base.password_keychain_id,
    }
}

/// Starts to turn a form into a connection. `base` is the stored profile that the form edits, or a
/// new one. A form that is at work already stays as it is.
pub fn start_ftp_submission(
    form: &mut NewConnectionForm,
    action: NewConnectionSubmitAction,
    base: FtpProfile,
    ungrouped: &str,
) -> (res: Option<FtpSubmission>)
    ensures
        old(form).pending ==> res is None && *final(form) == *old(form),
        !old(form).pending ==> match draft_fault(*old(form)) {
            Some(fault) => res is None && refused(*final(form), *old(form), fault),
            None => {
                &&& *final(form) == *old(form)
                &&& match res {
                    Some(submission) => {
                        &&& is_draft(submission.profile, base, *old(form), ungrouped@)
                        &&& submission.action == action
                        &&& submission.saves == (action != NewConnectionSubmitAction::Connect
                            || old(form).ftp_profile_id is Some)
                        &&& submission.password@.len() == 0
                        &&& submission.step == FtpStep::Validate
                    },
                    None => false,
                }
            },
        },
{
    if form.pending {
        return None;
    }
    let port: u16 = match parse_port(form.port.as_str()) {
        Some(port) => port,
        None => {
            form.error = Some(FormError::Key("modals.new_connection.ftp_invalid"));
            return None;
        },
    };
    let seconds: u64 = match parse_seconds(form.connect_timeout_seconds_text.as_str()) {
        Some(seconds) => seconds,
        None => {
            form.error = Some(FormError::Key("ssh.form.connect_timeout_invalid"));
            return None;
        },
    };
    let profile = draft(form, base, ungrouped, port, seconds);
    let saves = action != NewConnectionSubmitAction::Connect || form.ftp_profile_id.is_some();
    Some(
        FtpSubmission {
            action,
            profile,
            password: String::new(),
            saves,
            step: FtpStep::Validate,
        },
    )
}

/// Whether a password holds something that an FTP command cannot carry.
pub open spec fn breaks_commands(password: Seq<char>) -> bool {
    exists|i: int|
        0 <= i < password.len() && {
            ||| #[trigger] password[i] == '\r'
            ||| password[i] == '\n'
            ||| password[i] == '\0'
        }
}

fn holds_control(password: &str) -> (res: bool)
    ensures
        res == breaks_commands(password@),
{
    let chars = text::chars_of(password);
    let mut at: usize = 0;
    while at < chars.len()
        invariant
            at <= chars.len(),
            chars@ == password@,
            forall|i: int|
                0 <= i < at ==> #[trigger] password@[i] != '\r' && password@[i] != '\n'
                    && password@[i] != '\0',
        decreases chars.len() - at,
    {
        let c = chars[at];
        assert(c == password@[at as int]);
        if c == '\r' || c == '\n' || c == '\0' {
            return true;
        }
        at = at + 1;
    }
    false
}

impl FtpSubmission {
    /// What follows once the password is known.
    pub open spec fn after_password(self) -> FtpStep {
        if self.saves {
            FtpStep::Store
        } else {
            FtpStep::ResolveProxy
        }
    }

    /// Whether the stored password is used: the form holds none, and one is stored.
    pub open spec fn uses_stored_password(self, entered: Seq<char>) -> bool {
        entered.len() == 0 && self.profile.password_keychain_id is Some
    }

    /// What the answer on the profile leads to. A password that breaks commands is refused before
    /// anything leaves the form.
    pub open spec fn validated(self, before: FtpSubmission, after: NewConnectionForm, form: NewConnectionForm, valid: bool, went_on: bool) -> bool {
        if !valid || breaks_commands(form.password@) {
            &&& !went_on
            &&& self == before
            &&& refused(after, form, FormFault::Key("modals.new_connection.ftp_invalid"@))
        } else if !went_on {
            self.routed(before, after, form, false)
        } else {
            exists|routed: FtpSubmission, proxied: NewConnectionForm|
                {
                    &&& #[trigger] routed.routed(before, proxied, form, true)
                    &&& #[trigger] self.password_chosen(
                        routed,
                        after.password,
                        proxied.password,
                    )
                    &&& after == (NewConnectionForm { password: after.password, ..proxied })
                }
        }
    }

    /// The profile goes through the proxy that the form names; where that has no port, the form says
    /// so.
    #[verifier::opaque]
    pub open spec fn routed(self, before: FtpSubmission, after: NewConnectionForm, form: NewConnectionForm, went_on: bool) -> bool {
        let portless = form.upstream_proxy_policy
            == crate::workspace::connection_form::NewConnectionUpstreamProxyPolicy::Custom
            && port_of(form.upstream_proxy_port@) is None;
        &&& went_on == !portless
        &&& if portless {
            &&& self == before
            &&& refused(
                after,
                form,
                FormFault::Message(SaveFormError::InvalidProxyPort.words()),
            )
        } else {
            &&& self == (FtpSubmission {
                profile: FtpProfile {
                    upstream_proxy: self.profile.upstream_proxy,
                    ..before.profile
                },
                ..before
            })
            &&& is_upstream_proxy(self.profile.upstream_proxy, form)
            &&& proxy_taken(after, form)
        }
    }

    /// Where the password comes from: the store, or the form, which does not keep it.
    pub open spec fn password_chosen(self, before: FtpSubmission, after: String, entered: String) -> bool {
        if before.uses_stored_password(entered@) {
            &&& self == (FtpSubmission { step: FtpStep::ReadPassword, ..before })
            &&& after == entered
        } else {
            &&& self == (FtpSubmission {
                password: entered,
                step: before.after_password(),
                ..before
            })
            &&& after@.len() == 0
        }
    }

    fn choose_password(&mut self, entered: &mut String)
        ensures
            final(self).password_chosen(*old(self), *final(entered), *old(entered)),
    {
        if entered.as_str().is_empty() && self.profile.password_keychain_id.is_some() {
            self.step = FtpStep::ReadPassword;
            return;
        }
        let mut password = String::new();
        std::mem::swap(&mut password, entered);
        self.password = password;
        self.step = if self.saves {
            FtpStep::Store
        } else {
            FtpStep::ResolveProxy
        };
    }

    fn route(&mut self, form: &mut NewConnectionForm) -> (res: bool)
        ensures
            final(self).routed(*old(self), *final(form), *old(form), res),
    {
        proof {
            reveal(FtpSubmission::routed);
        }
        match saved_upstream_proxy_policy_from_form(form) {
            Ok(policy) => {
                self.profile.upstream_proxy = policy;
                true
            },
            Err(error) => {
                form.error = Some(FormError::Message(error.message().to_owned()));
                false
            },
        }
    }

    /// The store said whether the profile can be used. Says whether the submission goes on.
    pub fn on_validated(&mut self, form: &mut NewConnectionForm, valid: bool) -> (res: bool)
        requires
            old(self).step == FtpStep::Validate,
        ensures
            final(self).validated(*old(self), *final(form), *old(form), valid, res),
    {
        if !valid || holds_control(form.password.as_str()) {
            form.error = Some(FormError::Key("modals.new_connection.ftp_invalid"));
            return false;
        }
        if !self.route(form) {
            return false;
        }
        let ghost routed = *self;
        let ghost proxied = *form;
        self.choose_password(&mut form.password);
        assert(routed.routed(*old(self), proxied, *old(form), true));
        assert(self.password_chosen(routed, form.password, proxied.password));
        true
    }

    /// What a password that was read leads to.
    pub open spec fn password_read(
        self,
        before: FtpSubmission,
        after: NewConnectionForm,
        form: NewConnectionForm,
        result: Result<Option<String>, String>,
        next: FtpStep,
        went_on: bool,
    ) -> bool {
        match result {
            Ok(password) => {
                &&& went_on
                &&& after == form
                &&& self == (FtpSubmission { password: self.password, step: next, ..before })
                &&& self.password@ == match password {
                    Some(password) => password@,
                    None => Seq::empty(),
                }
            },
            Err(error) => {
                &&& !went_on
                &&& self == before
                &&& refused(after, form, FormFault::Message(error@))
            },
        }
    }

    fn take_password(&mut self, form: &mut NewConnectionForm, result: Result<Option<String>, String>, next: FtpStep) -> (res: bool)
        ensures
            final(self).password_read(*old(self), *final(form), *old(form), result, next, res),
    {
        match result {
            Ok(password) => {
                self.password = match password {
                    Some(password) => password,
                    None => String::new(),
                };
                self.step = next;
                true
            },
            Err(error) => {
                form.error = Some(FormError::Message(error));
                false
            },
        }
    }

    /// The stored password was read.
    pub fn on_password(&mut self, form: &mut NewConnectionForm, result: Result<Option<String>, String>) -> (res: bool)
        requires
            old(self).step == FtpStep::ReadPassword,
        ensures
            final(self).password_read(
                *old(self),
                *final(form),
                *old(form),
                result,
                old(self).after_password(),
                res,
            ),
    {
        let next = if self.saves {
            FtpStep::Store
        } else {
            FtpStep::ResolveProxy
        };
        self.take_password(form, result, next)
    }

    /// The password that the store is given with the profile; without one it forgets the stored
    /// one.
    pub fn password_to_store(&self, form: &NewConnectionForm) -> (res: Option<String>)
        ensures
            opt_view(res) == if form.save_password {
                Some(self.password@)
            } else {
                None
            },
    {
        if form.save_password {
            Some(self.password.clone())
        } else {
            None
        }
    }

    /// The store took the profile.
    pub fn on_stored(&mut self, form: &mut NewConnectionForm, result: Result<FtpProfile, String>) -> (res: bool)
        requires
            old(self).step == FtpStep::Store,
        ensures
            match result {
                Ok(profile) => {
                    &&& res
                    &&& *final(form) == *old(form)
                    &&& *final(self) == (FtpSubmission {
                        profile,
                        step: if old(form).save_password {
                            FtpStep::ReadStoredPassword
                        } else {
                            FtpStep::ResolveProxy
                        },
                        ..*old(self)
                    })
                },
                Err(error) => {
                    &&& !res
                    &&& *final(self) == *old(self)
                    &&& refused(*final(form), *old(form), FormFault::Message(error@))
                },
            },
    {
        match result {
            Ok(profile) => {
                self.profile = profile;
                self.step = if form.save_password {
                    FtpStep::ReadStoredPassword
                } else {
                    FtpStep::ResolveProxy
                };
                true
            },
            Err(error) => {
                form.error = Some(FormError::Message(error));
                false
            },
        }
    }

    /// The password that the store now has was read.
    pub fn on_stored_password(&mut self, form: &mut NewConnectionForm, result: Result<Option<String>, String>) -> (res: bool)
        requires
            old(self).step == FtpStep::ReadStoredPassword,
        ensures
            final(self).password_read(
                *old(self),
                *final(form),
                *old(form),
                result,
                FtpStep::ResolveProxy,
                res,
            ),
    {
        self.take_password(form, result, FtpStep::ResolveProxy)
    }

    /// The proxy that the profile names is known, or cannot be had.
    pub fn on_proxy(&mut self, form: &mut NewConnectionForm, result: Result<(), String>) -> (res: bool)
        requires
            old(self).step == FtpStep::ResolveProxy,
        ensures
            match result {
                Ok(_) => {
                    &&& res
                    &&& *final(self) == (FtpSubmission { step: FtpStep::Ready, ..*old(self) })
                    &&& *final(form) == (NewConnectionForm {
                        pending: old(self).action != NewConnectionSubmitAction::Save,
                        error: None,
                        ftp_profile_id: if old(self).saves {
                            Some(old(self).profile.id)
                        } else {
                            old(form).ftp_profile_id
                        },
                        saved_password_keychain_id: if old(self).saves {
                            old(self).profile.password_keychain_id
                        } else {
                            old(form).saved_password_keychain_id
                        },
                        ..*old(form)
                    })
                },
                Err(error) => {
                    &&& !res
                    &&& *final(self) == *old(self)
                    &&& refused(*final(form), *old(form), FormFault::Message(error@))
                },
            },
    {
        match result {
            Ok(_) => {
                if self.saves {
                    form.ftp_profile_id = Some(self.profile.id.clone());
                    form.saved_password_keychain_id = match &self.profile.password_keychain_id {
                        Some(id) => Some(id.clone()),
                        None => None,
                    };
                }
                form.pending = self.action != NewConnectionSubmitAction::Save;
                form.error = None;
                self.step = FtpStep::Ready;
                true
            },
            Err(error) => {
                form.error = Some(FormError::Message(error));
                false
            },
        }
    }
}

/// The form that is open, where one is.
pub struct ConnectionFormState {
    pub form: Option<NewConnectionForm>,
}

/// What came of an attempt to connect.
#[derive(Clone, Copy, PartialEq, Eq, Structural, Debug)]
pub enum FtpOutcome {
    /// The form is gone or has started another attempt.
    TooLate,
    /// The session is opened; a stored profile counts as used.
    Connected { mark_used: bool },
    Failed,
}

impl ConnectionFormState {
    /// Closes the form.
    pub fn clear(&mut self)
        ensures
            final(self).form is None,
    {
        self.form = None;
    }

    /// Whether an attempt is the one that the form waits for.
    pub open spec fn awaits(self, attempt: Seq<char>) -> bool {
        &&& self.form is Some
        &&& self.form->0.ftp_attempt is Some
        &&& self.form->0.ftp_attempt->0@ == attempt
    }

    /// Starts an attempt to connect, and names it.
    pub fn begin_ftp_attempt(&mut self) -> (res: String)
        ensures
            match old(self).form {
                Some(form) => {
                    &&& final(self).form == Some(
                        NewConnectionForm { ftp_attempt: Some(res), ..form },
                    )
                    &&& final(self).awaits(res@)
                },
                None => final(self).form is None,
            },
    {
        let attempt = random_id();
        match &mut self.form {
            Some(form) => {
                form.ftp_attempt = Some(attempt.clone());
            },
            None => {},
        }
        attempt
    }

    /// An attempt to connect is over.
    pub fn finish_ftp_attempt(&mut self, attempt: &str, result: Result<(), String>, saved: bool) -> (res: FtpOutcome)
        ensures
            !old(self).awaits(attempt@) ==> res == FtpOutcome::TooLate && *final(self) == *old(self),
            old(self).awaits(attempt@) ==> match result {
                Ok(_) => {
                    &&& res == (FtpOutcome::Connected { mark_used: saved })
                    &&& final(self).form is None
                },
                Err(error) => {
                    &&& res == FtpOutcome::Failed
                    &&& final(self).form is Some
                    &&& refused(
                        final(self).form->0,
                        (NewConnectionForm {
                            pending: false,
                            ftp_attempt: None,
                            ..old(self).form->0
                        }),
                        FormFault::Failed("modals.new_connection.ftp_failed"@, error@),
                    )
                },
            },
    {
        let awaited = match &self.form {
            Some(form) => match &form.ftp_attempt {
                Some(current) => text::same(current.as_str(), attempt),
                None => false,
            },
            None => false,
        };
        if !awaited {
            return FtpOutcome::TooLate;
        }
        match result {
            Ok(_) => {
                self.form = None;
                FtpOutcome::Connected { mark_used: saved }
            },
            Err(error) => {
                match &mut self.form {
                    Some(form) => {
                        form.pending = false;
                        form.error = Some(
                            FormError::Failed("modals.new_connection.ftp_failed", error),
                        );
                        form.ftp_attempt = None;
                    },
                    None => {},
                }
                FtpOutcome::Failed
            },
        }
    }
}

/// A text that may be missing.
pub open spec fn or_empty(text: Option<String>) -> Seq<char> {
    match text {
        Some(text) => text@,
        None => Seq::empty(),
    }
}

fn text_or_empty(text: &Option<String>) -> (res: String)
    ensures
        res@ == or_empty(*text),
{
    match text {
        Some(text) => text.clone(),
        None => String::new(),
    }
}

/// A form that shows a stored profile. Its password stays in the store.
pub open spec fn shows_profile(after: NewConnectionForm, before: NewConnectionForm, profile: FtpProfile) -> bool {
    &&& after == (NewConnectionForm {
        transport: NewConnectionTransport::Ftp,
        icon: after.icon,
        color: after.color,
        icon_background_color: after.icon_background_color,
        ftp_profile_id: Some(profile.id),
        ftp_tls: profile.security == FtpSecurity::ExplicitTls,
        name: profile.name,
        host: profile.host,
        port: after.port,
        username: profile.username,
        group: after.group,
        notes: after.notes,
        sftp_initial_remote_path: profile.initial_path,
        connect_timeout_seconds_text: after.connect_timeout_seconds_text,
        saved_password_keychain_id: profile.password_keychain_id,
        save_password: profile.password_keychain_id is Some,
        ..before
    })
    &&& after.icon@ == or_empty(profile.icon)
    &&& after.color@ == or_empty(profile.color)
    &&& after.icon_background_color@ == or_empty(profile.icon_background_color)
    &&& after.port@ == text::decimal(profile.port as nat)
    &&& after.group@ == or_empty(profile.group)
    &&& after.notes@ == or_empty(profile.notes)
    &&& after.connect_timeout_seconds_text@ == text::decimal(profile.connect_timeout_seconds as nat)
}

/// Shows a stored profile in a form.
pub fn show_ftp_profile(form: &mut NewConnectionForm, profile: FtpProfile)
    ensures
        shows_profile(*final(form), *old(form), profile),
{
    form.icon = text_or_empty(&profile.icon);
    form.color = text_or_empty(&profile.color);
    form.icon_background_color = text_or_empty(&profile.icon_background_color);
    form.transport = NewConnectionTransport::Ftp;
    form.ftp_profile_id = Some(profile.id);
    form.ftp_tls = profile.security == FtpSecurity::ExplicitTls;
    form.name = profile.name;
    form.host = profile.host;
    form.port = text::number(profile.port as u64);
    form.username = profile.username;
    form.group = text_or_empty(&profile.group);
    form.notes = text_or_empty(&profile.notes);
    form.sftp_initial_remote_path = profile.initial_path;
    form.connect_timeout_seconds_text = text::number(profile.connect_timeout_seconds);
    form.save_password = profile.password_keychain_id.is_some();
    form.saved_password_keychain_id = profile.password_keychain_id;
}

/// The text fields of the form for an FTP server.
#[derive(Clone, Copy, PartialEq, Eq, Structural, Debug)]
pub enum FtpFormField {
    Name,
    Host,
    Port,
    Username,
    Password,
    InitialRemotePath,
    ConnectTimeoutSeconds,
}

/// The switches of the form for an FTP server.
#[derive(Clone, Copy, PartialEq, Eq, Structural, Debug)]
pub enum FtpFormSwitch {
    SavePassword,
    Tls,
}

/// A text field: what it is called, what it holds, and what it shows while it is empty.
pub struct FieldRow {
    pub field: FtpFormField,
    pub label: &'static str,
    pub value: String,
    pub placeholder: Piece,
}

/// A text field, in words.
pub struct FieldRowView {
    pub field: FtpFormField,
    pub label: Seq<char>,
    pub value: Seq<char>,
    pub placeholder: PieceView,
}

impl FieldRow {
    pub open spec fn view(self) -> FieldRowView {
        FieldRowView {
            field: self.field,
            label: self.label@,
            value: self.value@,
            placeholder: self.placeholder@,
        }
    }
}

/// One row of the form.
pub enum FormRow {
    Field(FieldRow),
    /// Two fields beside each other.
    Pair(FieldRow, FieldRow),
    Group { label: &'static str, value: String },
    Notes { value: String },
    /// A field whose value is not shown.
    Secret { field: FtpFormField, label: &'static str, placeholder: &'static str },
    Checkbox { switch: FtpFormSwitch, label: &'static str, checked: bool },
    /// The choice of a proxy.
    UpstreamProxy,
}

/// One row of the form, in words.
pub enum FormRowView {
    Field(FieldRowView),
    Pair(FieldRowView, FieldRowView),
    Group { label: Seq<char>, value: Seq<char> },
    Notes { value: Seq<char> },
    Secret { field: FtpFormField, label: Seq<char>, placeholder: Seq<char> },
    Checkbox { switch: FtpFormSwitch, label: Seq<char>, checked: bool },
    UpstreamProxy,
}

impl FormRow {
    pub open spec fn view(self) -> FormRowView {
        match self {
            FormRow::Field(field) => FormRowView::Field(field@),
            FormRow::Pair(first, second) => FormRowView::Pair(first@, second@),
            FormRow::Group { label, value } => FormRowView::Group { label: label@, value: value@ },
            FormRow::Notes { value } => FormRowView::Notes { value: value@ },
            FormRow::Secret { field, label, placeholder } => FormRowView::Secret {
                field,
                label: label@,
                placeholder: placeholder@,
            },
            FormRow::Checkbox { switch, label, checked } => FormRowView::Checkbox {
                switch,
                label: label@,
                checked,
            },
            FormRow::UpstreamProxy => FormRowView::UpstreamProxy,
        }
    }
}

pub open spec fn rows_view(rows: Seq<FormRow>) -> Seq<FormRowView> {
    rows.map_values(|row: FormRow| row@)
}

/// The form for an FTP server: two sections, and what follows them.
pub struct FtpFormView {
    pub basic: Vec<FormRow>,
    pub authentication: Vec<FormRow>,
    pub rest: Vec<FormRow>,
}

/// The section that says which server is meant.
pub open spec fn basic_rows(form: NewConnectionForm) -> Seq<FormRowView> {
    seq![
        FormRowView::Field(
            FieldRowView {
                field: FtpFormField::Name,
                label: "ssh.form.name"@,
                value: form.name@,
                placeholder: PieceView::Translated("ssh.form.name_placeholder"@),
            },
        ),
        FormRowView::Pair(
            FieldRowView {
                field: FtpFormField::Host,
                label: "ssh.form.host"@,
                value: form.host@,
                placeholder: PieceView::Translated("ssh.form.host_placeholder"@),
            },
            FieldRowView {
                field: FtpFormField::Port,
                label: "ssh.form.port"@,
                value: form.port@,
                placeholder: PieceView::Plain("21"@),
            },
        ),
        FormRowView::Group { label: "ssh.form.group"@, value: form.group@ },
        FormRowView::Notes { value: form.notes@ },
    ]
}

/// The section that says who the user is there.
pub open spec fn authentication_rows(form: NewConnectionForm) -> Seq<FormRowView> {
    seq![
        FormRowView::Field(
            FieldRowView {
                field: FtpFormField::Username,
                label: "ssh.form.username"@,
                value: form.username@,
                placeholder: PieceView::Translated("ssh.form.username"@),
            },
        ),
        FormRowView::Secret {
            field: FtpFormField::Password,
            label: "ssh.form.password"@,
            placeholder: "ssh.form.password"@,
        },
        FormRowView::Checkbox {
            switch: FtpFormSwitch::SavePassword,
            label: "ssh.form.save_password"@,
            checked: form.save_password,
        },
        FormRowView::Checkbox {
            switch: FtpFormSwitch::Tls,
            label: "modals.new_connection.ftp_tls"@,
            checked: form.ftp_tls,
        },
    ]
}

/// What follows the sections.
pub open spec fn rest_rows(form: NewConnectionForm) -> Seq<FormRowView> {
    seq![
        FormRowView::Field(
            FieldRowView {
                field: FtpFormField::InitialRemotePath,
                label: "modals.new_connection.ftp_initial_path"@,
                value: form.sftp_initial_remote_path@,
                placeholder: PieceView::Plain("/"@),
            },
        ),
        FormRowView::Field(
            FieldRowView {
                field: FtpFormField::ConnectTimeoutSeconds,
                label: "modals.new_connection.ftp_timeout"@,
                value: form.connect_timeout_seconds_text@,
                placeholder: PieceView::Plain("30"@),
            },
        ),
        FormRowView::UpstreamProxy,
    ]
}

fn field_row(field: FtpFormField, label: &'static str, value: &String, placeholder: Piece) -> (res: FieldRow)
    ensures
        res@ == (FieldRowView { field, label: label@, value: value@, placeholder: placeholder@ }),
{
    FieldRow { field, label, value: value.clone(), placeholder }
}

fn basic_section(form: &NewConnectionForm) -> (res: Vec<FormRow>)
    ensures
        rows_view(res@) == basic_rows(*form),
{
    let mut res: Vec<FormRow> = Vec::new();
    res.push(
        FormRow::Field(
            field_row(
                FtpFormField::Name,
                "ssh.form.name",
                &form.name,
                Piece::Translated("ssh.form.name_placeholder".to_owned()),
            ),
        ),
    );
    res.push(
        FormRow::Pair(
            field_row(
                FtpFormField::Host,
                "ssh.form.host",
                &form.host,
                Piece::Translated("ssh.form.host_placeholder".to_owned()),
            ),
            field_row(
                FtpFormField::Port,
                "ssh.form.port",
                &form.port,
                Piece::Plain("21".to_owned()),
            ),
        ),
    );
    res.push(FormRow::Group { label: "ssh.form.group", value: form.group.clone() });
    res.push(FormRow::Notes { value: form.notes.clone() });
    assert(rows_view(res@) =~= basic_rows(*form));
    res
}

fn authentication_section(form: &NewConnectionForm) -> (res: Vec<FormRow>)
    ensures
        rows_view(res@) == authentication_rows(*form),
{
    let mut res: Vec<FormRow> = Vec::new();
    res.push(
        FormRow::Field(
            field_row(
                FtpFormField::Username,
                "ssh.form.username",
                &form.username,
                Piece::Translated("ssh.form.username".to_owned()),
            ),
        ),
    );
    res.push(
        FormRow::Secret {
            field: FtpFormField::Password,
            label: "ssh.form.password",
            placeholder: "ssh.form.password",
        },
    );
    res.push(
        FormRow::Checkbox {
            switch: FtpFormSwitch::SavePassword,
            label: "ssh.form.save_password",
            checked: form.save_password,
        },
    );
    res.push(
        FormRow::Checkbox {
            switch: FtpFormSwitch::Tls,
            label: "modals.new_connection.ftp_tls",
            checked: form.ftp_tls,
        },
    );
    assert(rows_view(res@) =~= authentication_rows(*form));
    res
}

fn rest_of_form(form: &NewConnectionForm) -> (res: Vec<FormRow>)
    ensures
        rows_view(res@) == rest_rows(*form),
{
    let mut res: Vec<FormRow> = Vec::new();
    res.push(
        FormRow::Field(
            field_row(
                FtpFormField::InitialRemotePath,
                "modals.new_connection.ftp_initial_path",
                &form.sftp_initial_remote_path,
                Piece::Plain("/".to_owned()),
            ),
        ),
    );
    res.push(
        FormRow::Field(
            field_row(
                FtpFormField::ConnectTimeoutSeconds,
                "modals.new_connection.ftp_timeout",
                &form.connect_timeout_seconds_text,
                Piece::Plain("30".to_owned()),
            ),
        ),
    );
    res.push(FormRow::UpstreamProxy);
    assert(rows_view(res@) =~= rest_rows(*form));
    res
}

impl WorkspaceApp {
    /// The form for an FTP server, where a form is open.
    pub fn render_ftp_form_branch(&self) -> (res: Option<FtpFormView>)
        ensures
            match (self.connection_form.form, res) {
                (Some(form), Some(view)) => {
                    &&& rows_view(view.basic@) == basic_rows(form)
                    &&& rows_view(view.authentication@) == authentication_rows(form)
                    &&& rows_view(view.rest@) == rest_rows(form)
                },
                (None, None) => true,
                _ => false,
            },
    {
        match &self.connection_form.form {
            Some(form) => Some(
                FtpFormView {
                    basic: basic_section(form),
                    authentication: authentication_section(form),
                    rest: rest_of_form(form),
                },
            ),
            None => None,
        }
    }
}

/// What came of an attempt to connect; `None` says that it broke off.
pub fn attempt_result(ended: Option<Result<(), String>>) -> (res: Result<(), String>)
    ensures
        match ended {
            Some(result) => res == result,
            None => res is Err && res->Err_0@ == "FTP connection task ended"@,
        },
{
    match ended {
        Some(result) => result,
        None => Err("FTP connection task ended".to_owned()),
    }
}

/// What follows a form that was filled in.
pub struct FtpLaunch {
    /// Whether the synchronized data changed.
    pub refreshes_sync: bool,
    /// The attempt to connect that starts.
    pub attempt: Option<String>,
}

impl ConnectionFormState {
    /// A form was filled in: it is closed where it was only to be saved, and an attempt to connect
    /// starts otherwise.
    pub fn launch_ftp_submission(&mut self, submission: &FtpSubmission) -> (res: FtpLaunch)
        requires
            submission.step == FtpStep::Ready,
        ensures
            res.refreshes_sync == submission.saves,
            res.attempt is None == (submission.action == NewConnectionSubmitAction::Save),
            match res.attempt {
                None => final(self).form is None,
                Some(attempt) => match old(self).form {
                    Some(form) => {
                        &&& final(self).form == Some(
                            NewConnectionForm { ftp_attempt: Some(attempt), ..form },
                        )
                        &&& final(self).awaits(attempt@)
                    },
                    None => final(self).form is None,
                },
            },
    {
        if submission.action == NewConnectionSubmitAction::Save {
            self.clear();
            return FtpLaunch { refreshes_sync: submission.saves, attempt: None };
        }
        let attempt = self.begin_ftp_attempt();
        FtpLaunch { refreshes_sync: submission.saves, attempt: Some(attempt) }
    }

    /// A switch of the form was clicked.
    pub fn flip_ftp_switch(&mut self, switch: FtpFormSwitch)
        ensures
            final(self).form == match old(self).form {
                Some(form) => Some(
                    match switch {
                        FtpFormSwitch::SavePassword => NewConnectionForm {
                            save_password: !form.save_password,
                            ..form
                        },
                        FtpFormSwitch::Tls => NewConnectionForm { ftp_tls: !form.ftp_tls, ..form },
                    },
                ),
                None => None,
            },
    {
        let mut form: Option<NewConnectionForm> = None;
        std::mem::swap(&mut form, &mut self.form);
        match form {
            Some(form) => {
                let mut form = form;
                match switch {
                    FtpFormSwitch::SavePassword => {
                        form.save_password = !form.save_password;
                    },
                    FtpFormSwitch::Tls => {
                        form.ftp_tls = !form.ftp_tls;
                    },
                }
                self.form = Some(form);
            },
            None => {},
        }
    }
}

} // verus!
