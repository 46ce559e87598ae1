//! What is stored of a connection, and how the form becomes that.

use vstd::prelude::*;

use crate::numerals::{parse_number, written_number};
use crate::text;
use crate::text::opt_view;
use crate::workspace::connection_form::{
    NewConnectionForm, NewConnectionProxyHop, NewConnectionUpstreamProxyAuth,
    NewConnectionUpstreamProxyPolicy, SshAuthTab,
};
use crate::workspace::ssh_algorithms::SshAlgorithmPreferences;

verus! {

/// A text that is not shown.
pub struct SecretText {
    text: String,
}

impl SecretText {
    pub closed spec fn view(self) -> Seq<char> {
        self.text@
    }

    pub fn new(text: String) -> (res: SecretText)
        ensures
            res@ == text@,
    {
        SecretText { text }
    }

    pub fn expose_secret(&self) -> (res: &str)
        ensures
            res@ == self@,
    {
        self.text.as_str()
    }
}

pub open spec fn secret_view(secret: Option<SecretText>) -> Option<Seq<char>> {
    match secret {
        Some(secret) => Some(secret@),
        None => None,
    }
}

/// How a connection logs in. A secret is stored under the name that the keychain gave it, or still
/// has to be.
pub enum SavedAuth {
    Password { keychain_id: Option<String>, plaintext_password: Option<SecretText>, empty_password: bool },
    Key {
        key_path: String,
        has_passphrase: bool,
        passphrase_keychain_id: Option<String>,
        plaintext_passphrase: Option<SecretText>,
    },
    Agent,
    KeyboardInteractive,
}

/// How a connection logs in, in words.
pub enum AuthView {
    Password { keychain_id: Option<Seq<char>>, plaintext_password: Option<Seq<char>>, empty_password: bool },
    Key {
        key_path: Seq<char>,
        has_passphrase: bool,
        passphrase_keychain_id: Option<Seq<char>>,
        plaintext_passphrase: Option<Seq<char>>,
    },
    Agent,
    KeyboardInteractive,
}

impl SavedAuth {
    pub open spec fn view(self) -> AuthView {
        match self {
            SavedAuth::Password { keychain_id, plaintext_password, empty_password } => AuthView::Password {
                keychain_id: opt_view(keychain_id),
                plaintext_password: secret_view(plaintext_password),
                empty_password,
            },
            SavedAuth::Key { key_path, has_passphrase, passphrase_keychain_id, plaintext_passphrase } => AuthView::Key {
                key_path: key_path@,
                has_passphrase,
                passphrase_keychain_id: opt_view(passphrase_keychain_id),
                plaintext_passphrase: secret_view(plaintext_passphrase),
            },
            SavedAuth::Agent => AuthView::Agent,
            SavedAuth::KeyboardInteractive => AuthView::KeyboardInteractive,
        }
    }

    /// The name of the stored password.
    pub open spec fn stored_password(self) -> Option<Seq<char>> {
        match self {
            SavedAuth::Password { keychain_id, plaintext_password, empty_password } => opt_view(keychain_id),
            _ => None,
        }
    }

    /// Whether the connection logs in with an empty password.
    pub fn uses_empty_password(&self) -> (res: bool)
        ensures
            res == match *self {
                SavedAuth::Password { keychain_id, plaintext_password, empty_password } => empty_password,
                _ => false,
            },
    {
        match self {
            SavedAuth::Password { keychain_id: _, plaintext_password: _, empty_password } => *empty_password,
            _ => false,
        }
    }
}

/// How a secret is described: whether it is there, and nothing else.
pub open spec fn described(there: bool) -> Seq<char> {
    if there {
        "[redacted]"@
    } else {
        "none"@
    }
}

fn describe_secret(secret: &Option<SecretText>) -> (res: &'static str)
    ensures
        res@ == described(*secret is Some),
{
    match secret {
        Some(_) => "[redacted]",
        None => "none",
    }
}

impl SavedAuth {
    /// How a way to log in is described: by its kind, and by whether there is a secret.
    pub open spec fn description(self) -> Seq<char> {
        match self {
            SavedAuth::Password { keychain_id, plaintext_password, empty_password } => "password "@
                + described(plaintext_password is Some),
            SavedAuth::Key { key_path, has_passphrase, passphrase_keychain_id, plaintext_passphrase } => "key "@
                + described(plaintext_passphrase is Some),
            SavedAuth::Agent => "agent"@,
            SavedAuth::KeyboardInteractive => "keyboard-interactive"@,
        }
    }

    pub fn describe(&self) -> (res: String)
        ensures
            res@ == self.description(),
    {
        match self {
            SavedAuth::Password { keychain_id: _, plaintext_password, empty_password: _ } => text::joined(
                "password ",
                describe_secret(plaintext_password),
            ),
            SavedAuth::Key {
                key_path: _,
                has_passphrase: _,
                passphrase_keychain_id: _,
                plaintext_passphrase,
            } => text::joined("key ", describe_secret(plaintext_passphrase)),
            SavedAuth::Agent => "agent".to_owned(),
            SavedAuth::KeyboardInteractive => "keyboard-interactive".to_owned(),
        }
    }
}

/// A command that opens the way to a host.
pub struct SavedProxyCommand {
    pub plaintext_command: Option<SecretText>,
}

impl SavedProxyCommand {
    pub open spec fn description(self) -> Seq<char> {
        "proxy command "@ + described(self.plaintext_command is Some)
    }

    /// Describes the command without telling what it is.
    pub fn describe(&self) -> (res: String)
        ensures
            res@ == self.description(),
    {
        text::joined("proxy command ", describe_secret(&self.plaintext_command))
    }
}

/// A host on the way to a connection's host.
pub struct SavedProxyHop {
    pub host: String,
    pub port: u16,
    pub username: String,
    pub auth: SavedAuth,
    pub agent_forwarding: bool,
    pub identity_agent: Option<String>,
    pub agent_forwarding_socket: Option<String>,
    pub legacy_ssh_compatibility: bool,
    pub ssh_algorithms: SshAlgorithmPreferences,
}

pub enum SavedUpstreamProxyAuth {
    Nothing,
    Password { username: String, plaintext_password: Option<SecretText> },
}

pub struct SavedUpstreamProxy {
    pub host: String,
    pub port: u16,
    pub auth: SavedUpstreamProxyAuth,
}

/// The proxy that a connection goes through.
pub enum SavedUpstreamProxyPolicy {
    UseGlobal,
    Custom { proxy: SavedUpstreamProxy },
}

/// A connection that is to be stored.
pub struct SaveConnectionRequest {
    pub id: Option<String>,
    pub name: String,
    pub host: String,
    pub port: u16,
    pub username: String,
    pub notes: String,
    pub group: String,
    pub auth: SavedAuth,
    pub proxy_chain: Vec<SavedProxyHop>,
    pub upstream_proxy: SavedUpstreamProxyPolicy,
    pub proxy_command: Option<SavedProxyCommand>,
    pub icon: Option<String>,
    pub color: Option<String>,
    pub icon_background_color: Option<String>,
    pub connect_timeout_seconds: u64,
    pub agent_forwarding: bool,
    pub identity_agent: Option<String>,
    pub agent_forwarding_socket: Option<String>,
    pub legacy_ssh_compatibility: bool,
    pub ssh_algorithms: SshAlgorithmPreferences,
    pub dedicated_new_terminal_connection: bool,
}

impl SaveConnectionRequest {
    pub open spec fn description(self) -> Seq<char> {
        "connection "@ + self.name@ + ", "@ + self.auth.description() + ", "@ + match self.proxy_command {
            Some(command) => command.description(),
            None => "no proxy command"@,
        }
    }

    /// Describes the connection without telling its secrets.
    pub fn describe(&self) -> (res: String)
        ensures
            res@ == self.description(),
    {
        let start = text::joined("connection ", self.name.as_str());
        let start = text::joined(start.as_str(), ", ");
        let start = text::joined(start.as_str(), self.auth.describe().as_str());
        let start = text::joined(start.as_str(), ", ");
        match &self.proxy_command {
            Some(command) => text::joined(start.as_str(), command.describe().as_str()),
            None => text::joined(start.as_str(), "no proxy command"),
        }
    }
}

/// A description tells whether there is a secret, but not which: two ways to log in that differ in
/// nothing but the secret are described alike.
pub proof fn law_descriptions_keep_secrets(
    keychain_id: Option<String>,
    empty_password: bool,
    one: SecretText,
    other: SecretText,
)
    ensures
        (SavedAuth::Password { keychain_id, plaintext_password: Some(one), empty_password }).description()
            == (SavedAuth::Password { keychain_id, plaintext_password: Some(other), empty_password }).description(),
        (SavedProxyCommand { plaintext_command: Some(one) }).description() == (SavedProxyCommand {
            plaintext_command: Some(other),
        }).description(),
{
}

/// Why a form cannot be stored.
#[derive(Clone, Copy, PartialEq, Eq, Structural, Debug)]
pub enum SaveFormError {
    HostRequired,
    InvalidPort,
    InvalidTimeout,
    InvalidHopPort,
    InvalidProxyPort,
}

impl SaveFormError {
    pub open spec fn words(self) -> Seq<char> {
        match self {
            SaveFormError::HostRequired => "Host is required"@,
            SaveFormError::InvalidPort => "Port is invalid"@,
            SaveFormError::InvalidTimeout => "Connect timeout is invalid"@,
            SaveFormError::InvalidHopPort => "Proxy hop port is invalid"@,
            SaveFormError::InvalidProxyPort => "Proxy port is invalid"@,
        }
    }

    /// What the error says.
    pub fn message(self) -> (res: &'static str)
        ensures
            res@ == self.words(),
    {
        match self {
            SaveFormError::HostRequired => "Host is required",
            SaveFormError::InvalidPort => "Port is invalid",
            SaveFormError::InvalidTimeout => "Connect timeout is invalid",
            SaveFormError::InvalidHopPort => "Proxy hop port is invalid",
            SaveFormError::InvalidProxyPort => "Proxy port is invalid",
        }
    }
}

/// The port that a text names.
pub open spec fn port_of(written: Seq<char>) -> Option<nat> {
    match written_number(text::trim(written)) {
        Some(port) => if port <= 65535 {
            Some(port)
        } else {
            None
        },
        None => None,
    }
}

pub fn parse_port(written: &str) -> (res: Option<u16>)
    ensures
        match res {
            Some(port) => port_of(written@) == Some(port as nat),
            None => port_of(written@) is None,
        },
{
    let trimmed = text::trimmed(written);
    match parse_number(trimmed.as_str(), 65535) {
        Some(port) => Some(port as u16),
        None => None,
    }
}

/// The number of seconds that a text names.
pub open spec fn seconds_of(written: Seq<char>) -> Option<nat> {
    match written_number(text::trim(written)) {
        Some(seconds) => if seconds <= u64::MAX {
            Some(seconds)
        } else {
            None
        },
        None => None,
    }
}

pub fn parse_seconds(written: &str) -> (res: Option<u64>)
    ensures
        match res {
            Some(seconds) => seconds_of(written@) == Some(seconds as nat),
            None => seconds_of(written@) is None,
        },
{
    let trimmed = text::trimmed(written);
    parse_number(trimmed.as_str(), u64::MAX)
}

/// A text without the white space around it, where anything is left.
pub open spec fn filled(written: Seq<char>) -> Option<Seq<char>> {
    if text::trim(written).len() == 0 {
        None
    } else {
        Some(text::trim(written))
    }
}

fn fill(written: &str) -> (res: Option<String>)
    ensures
        opt_view(res) == filled(written@),
{
    let trimmed = text::trimmed(written);
    if trimmed.as_str().is_empty() {
        None
    } else {
        Some(trimmed)
    }
}

/// The name of a connection: the user's, or who logs in where.
pub open spec fn name_of(form: NewConnectionForm) -> Seq<char> {
    match filled(form.name@) {
        Some(name) => name,
        None => text::trim(form.username@) + "@"@ + text::trim(form.host@),
    }
}

fn make_name(form: &NewConnectionForm) -> (res: String)
    ensures
        res@ == name_of(*form),
{
    match fill(form.name.as_str()) {
        Some(name) => name,
        None => {
            let username = text::trimmed(form.username.as_str());
            let host = text::trimmed(form.host.as_str());
            let start = text::joined(username.as_str(), "@");
            text::joined(start.as_str(), host.as_str())
        },
    }
}

/// Whether every hop of a list names a port.
pub open spec fn hops_have_ports(hops: Seq<NewConnectionProxyHop>) -> bool {
    forall|i: int| 0 <= i < hops.len() ==> port_of((#[trigger] hops[i]).port@) is Some
}

fn check_hops(hops: &Vec<NewConnectionProxyHop>) -> (res: bool)
    ensures
        res == hops_have_ports(hops@),
{
    let mut at: usize = 0;
    while at < hops.len()
        invariant
            at <= hops.len(),
            forall|i: int| 0 <= i < at ==> port_of((#[trigger] hops@[i]).port@) is Some,
        decreases hops.len() - at,
    {
        if parse_port(hops[at].port.as_str()).is_none() {
            assert(port_of(hops@[at as int].port@) is None);
            return false;
        }
        at = at + 1;
    }
    true
}

/// Why a form cannot be stored, where it cannot.
pub open spec fn fault(form: NewConnectionForm, prefix: Seq<NewConnectionProxyHop>) -> Option<SaveFormError> {
    if text::trim(form.host@).len() == 0 {
        Some(SaveFormError::HostRequired)
    } else if port_of(form.port@) is None {
        Some(SaveFormError::InvalidPort)
    } else if seconds_of(form.connect_timeout_seconds_text@) is None {
        Some(SaveFormError::InvalidTimeout)
    } else if !hops_have_ports(prefix) || !hops_have_ports(form.proxy_hops@) {
        Some(SaveFormError::InvalidHopPort)
    } else if form.upstream_proxy_policy == NewConnectionUpstreamProxyPolicy::Custom && port_of(
        form.upstream_proxy_port@,
    ) is None {
        Some(SaveFormError::InvalidProxyPort)
    } else {
        None
    }
}

fn find_fault(form: &NewConnectionForm, prefix: &Vec<NewConnectionProxyHop>) -> (res: Option<SaveFormError>)
    ensures
        res == fault(*form, prefix@),
{
    if text::trimmed(form.host.as_str()).as_str().is_empty() {
        return Some(SaveFormError::HostRequired);
    }
    if parse_port(form.port.as_str()).is_none() {
        return Some(SaveFormError::InvalidPort);
    }
    if parse_seconds(form.connect_timeout_seconds_text.as_str()).is_none() {
        return Some(SaveFormError::InvalidTimeout);
    }
    if !check_hops(prefix) || !check_hops(&form.proxy_hops) {
        return Some(SaveFormError::InvalidHopPort);
    }
    if form.upstream_proxy_policy == NewConnectionUpstreamProxyPolicy::Custom && parse_port(
        form.upstream_proxy_port.as_str(),
    ).is_none() {
        return Some(SaveFormError::InvalidProxyPort);
    }
    None
}

/// Whether the stored password stays: the form does not hold it, or holds it unchanged.
pub open spec fn keeps_password(form: NewConnectionForm, existing: Option<SavedAuth>) -> bool {
    &&& existing is Some
    &&& existing->0.stored_password() is Some
    &&& !form.password_loaded || form.password_from_store
}

/// Whether the password of the form is to be stored.
pub open spec fn hands_over_password(form: NewConnectionForm, existing: Option<SavedAuth>) -> bool {
    &&& form.auth_tab == SshAuthTab::Password
    &&& !form.empty_password
    &&& form.save_password
    &&& !keeps_password(form, existing)
    &&& form.password@.len() > 0
}

/// How the connection of a form logs in.
pub open spec fn auth_of(form: NewConnectionForm, existing: Option<SavedAuth>) -> AuthView {
    match form.auth_tab {
        SshAuthTab::Password => AuthView::Password {
            keychain_id: if !form.empty_password && form.save_password && keeps_password(
                form,
                existing,
            ) {
                existing->0.stored_password()
            } else {
                None
            },
            plaintext_password: if hands_over_password(form, existing) {
                Some(form.password@)
            } else {
                None
            },
            empty_password: form.empty_password,
        },
        SshAuthTab::SshKey => AuthView::Key {
            key_path: form.key_path@,
            has_passphrase: form.passphrase@.len() > 0,
            passphrase_keychain_id: None,
            plaintext_passphrase: if form.passphrase@.len() > 0 {
                Some(form.passphrase@)
            } else {
                None
            },
        },
        SshAuthTab::Agent => AuthView::Agent,
        SshAuthTab::TwoFactor => AuthView::KeyboardInteractive,
    }
}

fn take_text(slot: &mut String) -> (res: String)
    ensures
        res == *old(slot),
        final(slot)@.len() == 0,
{
    let mut taken = String::new();
    std::mem::swap(&mut taken, slot);
    taken
}

/// The form once the secret that logs in was handed over.
pub open spec fn auth_taken(after: NewConnectionForm, before: NewConnectionForm, existing: Option<SavedAuth>) -> bool {
    &&& after == (NewConnectionForm {
        password: after.password,
        passphrase: after.passphrase,
        ..before
    })
    &&& if hands_over_password(before, existing) {
        after.password@.len() == 0
    } else {
        after.password == before.password
    }
    &&& if before.auth_tab == SshAuthTab::SshKey && before.passphrase@.len() > 0 {
        after.passphrase@.len() == 0
    } else {
        after.passphrase == before.passphrase
    }
}

fn take_auth(form: &mut NewConnectionForm, existing: Option<&SavedAuth>) -> (res: SavedAuth)
    ensures
        res@ == auth_of(
            *old(form),
            match existing {
                Some(auth) => Some(*auth),
                None => None,
            },
        ),
        auth_taken(
            *final(form),
            *old(form),
            match existing {
                Some(auth) => Some(*auth),
                None => None,
            },
        ),
{
    match form.auth_tab {
        SshAuthTab::Password => {
            if form.empty_password || !form.save_password {
                return SavedAuth::Password {
                    keychain_id: None,
                    plaintext_password: None,
                    empty_password: form.empty_password,
                };
            }
            let stored = match existing {
                Some(SavedAuth::Password { keychain_id, plaintext_password: _, empty_password: _ }) => match keychain_id {
                    Some(id) => Some(id.clone()),
                    None => None,
                },
                _ => None,
            };
            if stored.is_some() && (!form.password_loaded || form.password_from_store) {
                return SavedAuth::Password {
                    keychain_id: stored,
                    plaintext_password: None,
                    empty_password: false,
                };
            }
            if form.password.as_str().is_empty() {
                return SavedAuth::Password {
                    keychain_id: None,
                    plaintext_password: None,
                    empty_password: false,
                };
            }
            let password = take_text(&mut form.password);
            SavedAuth::Password {
                keychain_id: None,
                plaintext_password: Some(SecretText::new(password)),
                empty_password: false,
            }
        },
        SshAuthTab::SshKey => {
            let key_path = form.key_path.clone();
            if form.passphrase.as_str().is_empty() {
                return SavedAuth::Key {
                    key_path,
                    has_passphrase: false,
                    passphrase_keychain_id: None,
                    plaintext_passphrase: None,
                };
            }
            let passphrase = take_text(&mut form.passphrase);
            SavedAuth::Key {
                key_path,
                has_passphrase: true,
                passphrase_keychain_id: None,
                plaintext_passphrase: Some(SecretText::new(passphrase)),
            }
        },
        SshAuthTab::Agent => SavedAuth::Agent,
        SshAuthTab::TwoFactor => SavedAuth::KeyboardInteractive,
    }
}

/// How a hop logs in.
pub open spec fn hop_auth_of(hop: NewConnectionProxyHop) -> AuthView {
    match hop.auth_tab {
        SshAuthTab::Password => AuthView::Password {
            keychain_id: None,
            plaintext_password: if hop.password@.len() > 0 && !hop.empty_password {
                Some(hop.password@)
            } else {
                None
            },
            empty_password: hop.empty_password,
        },
        SshAuthTab::SshKey => AuthView::Key {
            key_path: hop.key_path@,
            has_passphrase: hop.passphrase@.len() > 0,
            passphrase_keychain_id: None,
            plaintext_passphrase: if hop.passphrase@.len() > 0 {
                Some(hop.passphrase@)
            } else {
                None
            },
        },
        SshAuthTab::Agent => AuthView::Agent,
        SshAuthTab::TwoFactor => AuthView::KeyboardInteractive,
    }
}

/// A hop once its secrets were handed over.
pub open spec fn hop_taken(after: NewConnectionProxyHop, before: NewConnectionProxyHop) -> bool {
    &&& after == (NewConnectionProxyHop {
        password: after.password,
        passphrase: after.passphrase,
        ..before
    })
    &&& if before.auth_tab == SshAuthTab::Password && !before.empty_password {
        after.password@.len() == 0
    } else {
        after.password == before.password
    }
    &&& if before.auth_tab == SshAuthTab::SshKey {
        after.passphrase@.len() == 0
    } else {
        after.passphrase == before.passphrase
    }
}

/// Algorithms by name.
pub open spec fn same_algorithms(a: SshAlgorithmPreferences, b: SshAlgorithmPreferences) -> bool {
    &&& text::seq_view(a.kex@) == text::seq_view(b.kex@)
    &&& text::seq_view(a.host_key@) == text::seq_view(b.host_key@)
    &&& text::seq_view(a.cipher@) == text::seq_view(b.cipher@)
    &&& text::seq_view(a.mac@) == text::seq_view(b.mac@)
    &&& text::seq_view(a.compression@) == text::seq_view(b.compression@)
}

impl SshAlgorithmPreferences {
    pub fn duplicate(&self) -> (res: SshAlgorithmPreferences)
        ensures
            same_algorithms(res, *self),
    {
        SshAlgorithmPreferences {
            kex: text::duplicate_list(&self.kex),
            host_key: text::duplicate_list(&self.host_key),
            cipher: text::duplicate_list(&self.cipher),
            mac: text::duplicate_list(&self.mac),
            compression: text::duplicate_list(&self.compression),
        }
    }
}

/// What is stored of a hop.
pub open spec fn is_saved_hop(saved: SavedProxyHop, hop: NewConnectionProxyHop) -> bool {
    &&& saved.host@ == text::trim(hop.host@)
    &&& Some(saved.port as nat) == port_of(hop.port@)
    &&& saved.username@ == text::trim(hop.username@)
    &&& saved.auth@ == hop_auth_of(hop)
    &&& saved.agent_forwarding == hop.agent_forwarding
    &&& opt_view(saved.identity_agent) == filled(hop.identity_agent@)
    &&& opt_view(saved.agent_forwarding_socket) == opt_view(hop.agent_forwarding_socket)
    &&& saved.legacy_ssh_compatibility == hop.legacy_ssh_compatibility
    &&& same_algorithms(saved.ssh_algorithms, hop.ssh_algorithms)
}

fn take_hop(hop: &mut NewConnectionProxyHop) -> (res: SavedProxyHop)
    requires
        port_of(old(hop).port@) is Some,
    ensures
        is_saved_hop(res, *old(hop)),
        hop_taken(*final(hop), *old(hop)),
{
    let port: u16 = match parse_port(hop.port.as_str()) {
        Some(port) => port,
        None => 0,
    };
    let auth = match hop.auth_tab {
        SshAuthTab::Password => {
            let plaintext_password = if hop.empty_password || hop.password.as_str().is_empty() {
                None
            } else {
                Some(SecretText::new(take_text(&mut hop.password)))
            };
            SavedAuth::Password {
                keychain_id: None,
                plaintext_password,
                empty_password: hop.empty_password,
            }
        },
        SshAuthTab::SshKey => {
            let key_path = hop.key_path.clone();
            let has_passphrase = !hop.passphrase.as_str().is_empty();
            let plaintext_passphrase = if has_passphrase {
                Some(SecretText::new(take_text(&mut hop.passphrase)))
            } else {
                None
            };
            SavedAuth::Key {
                key_path,
                has_passphrase,
                passphrase_keychain_id: None,
                plaintext_passphrase,
            }
        },
        SshAuthTab::Agent => SavedAuth::Agent,
        SshAuthTab::TwoFactor => SavedAuth::KeyboardInteractive,
    };
    SavedProxyHop {
        host: text::trimmed(hop.host.as_str()),
        port,
        username: text::trimmed(hop.username.as_str()),
        auth,
        agent_forwarding: hop.agent_forwarding,
        identity_agent: fill(hop.identity_agent.as_str()),
        agent_forwarding_socket: text::duplicate_option(&hop.agent_forwarding_socket),
        legacy_ssh_compatibility: hop.legacy_ssh_compatibility,
        ssh_algorithms: hop.ssh_algorithms.duplicate(),
    }
}

fn take_hops(hops: &mut Vec<NewConnectionProxyHop>) -> (res: Vec<SavedProxyHop>)
    requires
        hops_have_ports(old(hops)@),
    ensures
        res@.len() == old(hops)@.len(),
        final(hops)@.len() == old(hops)@.len(),
        forall|i: int|
            0 <= i < res@.len() ==> is_saved_hop(#[trigger] res@[i], old(hops)@[i]),
        forall|i: int|
            0 <= i < final(hops)@.len() ==> hop_taken(#[trigger] final(hops)@[i], old(hops)@[i]),
{
    let mut saved: Vec<SavedProxyHop> = Vec::new();
    let mut at: usize = 0;
    let ghost all = hops@;
    while at < hops.len()
        invariant
            at <= hops@.len(),
            hops@.len() == all.len(),
            all == old(hops)@,
            hops_have_ports(all),
            saved@.len() == at,
            forall|i: int| 0 <= i < at ==> is_saved_hop(#[trigger] saved@[i], all[i]),
            forall|i: int| 0 <= i < at ==> hop_taken(#[trigger] hops@[i], all[i]),
            forall|i: int| at <= i < all.len() ==> #[trigger] hops@[i] == all[i],
        decreases all.len() - at,
    {
        let ghost before = hops@;
        assert(hops@[at as int] == all[at as int]);
        assert(port_of(all[at as int].port@) is Some);
        let hop = take_hop(&mut hops[at]);
        assert(hops@ =~= before.update(at as int, hops@[at as int]));
        saved.push(hop);
        at = at + 1;
    }
    saved
}

/// The proxy that a form names.
pub open spec fn is_upstream_proxy(policy: SavedUpstreamProxyPolicy, form: NewConnectionForm) -> bool {
    match form.upstream_proxy_policy {
        NewConnectionUpstreamProxyPolicy::UseGlobal => policy is UseGlobal,
        NewConnectionUpstreamProxyPolicy::Custom => match policy {
            SavedUpstreamProxyPolicy::Custom { proxy } => {
                &&& proxy.host@ == text::trim(form.upstream_proxy_host@)
                &&& Some(proxy.port as nat) == port_of(form.upstream_proxy_port@)
                &&& match form.upstream_proxy_auth {
                    NewConnectionUpstreamProxyAuth::Nothing => proxy.auth is Nothing,
                    NewConnectionUpstreamProxyAuth::Password => match proxy.auth {
                        SavedUpstreamProxyAuth::Password { username, plaintext_password } => {
                            &&& username@ == text::trim(form.upstream_proxy_username@)
                            &&& secret_view(plaintext_password) == if form.upstream_proxy_password@.len()
                                > 0 {
                                Some(form.upstream_proxy_password@)
                            } else {
                                None
                            }
                        },
                        _ => false,
                    },
                }
            },
            _ => false,
        },
    }
}

/// Whether the password of the proxy is handed over.
pub open spec fn hands_over_proxy_password(form: NewConnectionForm) -> bool {
    &&& form.upstream_proxy_policy == NewConnectionUpstreamProxyPolicy::Custom
    &&& form.upstream_proxy_auth == NewConnectionUpstreamProxyAuth::Password
    &&& form.upstream_proxy_password@.len() > 0
}

/// The form once the password of the proxy was handed over.
pub open spec fn proxy_taken(after: NewConnectionForm, before: NewConnectionForm) -> bool {
    &&& after == (NewConnectionForm {
        upstream_proxy_password: after.upstream_proxy_password,
        ..before
    })
    &&& if hands_over_proxy_password(before) {
        after.upstream_proxy_password@.len() == 0
    } else {
        after.upstream_proxy_password == before.upstream_proxy_password
    }
}

/// The proxy that a form names. Its password is handed over; a form that names no port keeps it.
pub fn saved_upstream_proxy_policy_from_form(form: &mut NewConnectionForm) -> (res: Result<SavedUpstreamProxyPolicy, SaveFormError>)
    ensures
        match res {
            Ok(policy) => is_upstream_proxy(policy, *old(form)) && proxy_taken(*final(form), *old(form)),
            Err(error) => {
                &&& error == SaveFormError::InvalidProxyPort
                &&& old(form).upstream_proxy_policy == NewConnectionUpstreamProxyPolicy::Custom
                &&& port_of(old(form).upstream_proxy_port@) is None
                &&& *final(form) == *old(form)
            },
        },
{
    if form.upstream_proxy_policy == NewConnectionUpstreamProxyPolicy::UseGlobal {
        return Ok(SavedUpstreamProxyPolicy::UseGlobal);
    }
    let port: u16 = match parse_port(form.upstream_proxy_port.as_str()) {
        Some(port) => port,
        None => {
            return Err(SaveFormError::InvalidProxyPort);
        },
    };
    let host = text::trimmed(form.upstream_proxy_host.as_str());
    let auth = match form.upstream_proxy_auth {
        NewConnectionUpstreamProxyAuth::Nothing => SavedUpstreamProxyAuth::Nothing,
        NewConnectionUpstreamProxyAuth::Password => {
            let username = text::trimmed(form.upstream_proxy_username.as_str());
            let plaintext_password = if form.upstream_proxy_password.as_str().is_empty() {
                None
            } else {
                Some(SecretText::new(take_text(&mut form.upstream_proxy_password)))
            };
            SavedUpstreamProxyAuth::Password { username, plaintext_password }
        },
    };
    Ok(SavedUpstreamProxyPolicy::Custom { proxy: SavedUpstreamProxy { host, port, auth } })
}

/// The hops of a connection: those that are put before the form's, then the form's.
pub open spec fn is_chain(chain: Seq<SavedProxyHop>, prefix: Seq<NewConnectionProxyHop>, hops: Seq<NewConnectionProxyHop>) -> bool {
    &&& chain.len() == prefix.len() + hops.len()
    &&& forall|i: int| 0 <= i < prefix.len() ==> is_saved_hop(#[trigger] chain[i], prefix[i])
    &&& forall|i: int|
        prefix.len() <= i < chain.len() ==> is_saved_hop(#[trigger] chain[i], hops[i - prefix.len()])
}

/// The request that stores the connection of a form.
pub open spec fn is_request(
    request: SaveConnectionRequest,
    form: NewConnectionForm,
    prefix: Seq<NewConnectionProxyHop>,
    id: Option<String>,
    existing: Option<SavedAuth>,
) -> bool {
    &&& request.id == id
    &&& request.name@ == name_of(form)
    &&& request.host@ == text::trim(form.host@)
    &&& Some(request.port as nat) == port_of(form.port@)
    &&& request.username@ == text::trim(form.username@)
    &&& request.notes@ == form.notes@
    &&& request.group@ == form.group@
    &&& request.auth@ == auth_of(form, existing)
    &&& is_chain(request.proxy_chain@, prefix, form.proxy_hops@)
    &&& is_upstream_proxy(request.upstream_proxy, form)
    &&& match request.proxy_command {
        Some(command) => form.proxy_command_enabled && secret_view(command.plaintext_command)
            == Some(form.proxy_command@),
        None => !form.proxy_command_enabled,
    }
    &&& opt_view(request.icon) == Some(form.icon@)
    &&& opt_view(request.color) == Some(form.color@)
    &&& opt_view(request.icon_background_color) == Some(form.icon_background_color@)
    &&& Some(request.connect_timeout_seconds as nat) == seconds_of(form.connect_timeout_seconds_text@)
    &&& request.agent_forwarding == form.agent_forwarding
    &&& opt_view(request.identity_agent) == filled(form.identity_agent@)
    &&& opt_view(request.agent_forwarding_socket) == opt_view(form.agent_forwarding_socket)
    &&& request.legacy_ssh_compatibility == form.legacy_ssh_compatibility
    &&& same_algorithms(request.ssh_algorithms, form.ssh_algorithms)
    &&& request.dedicated_new_terminal_connection == form.dedicated_new_terminal_connection
}

/// The form once its secrets were handed over; everything else stays.
pub open spec fn secrets_taken(after: NewConnectionForm, before: NewConnectionForm, existing: Option<SavedAuth>) -> bool {
    &&& after == (NewConnectionForm {
        password: after.password,
        passphrase: after.passphrase,
        proxy_hops: after.proxy_hops,
        upstream_proxy_password: after.upstream_proxy_password,
        proxy_command: after.proxy_command,
        ..before
    })
    &&& auth_taken(
        NewConnectionForm { password: after.password, passphrase: after.passphrase, ..before },
        before,
        existing,
    )
    &&& proxy_taken(
        NewConnectionForm { upstream_proxy_password: after.upstream_proxy_password, ..before },
        before,
    )
    &&& after.proxy_hops@.len() == before.proxy_hops@.len()
    &&& forall|i: int|
        0 <= i < after.proxy_hops@.len() ==> hop_taken(
            #[trigger] after.proxy_hops@[i],
            before.proxy_hops@[i],
        )
    &&& if before.proxy_command_enabled {
        after.proxy_command@.len() == 0
    } else {
        after.proxy_command == before.proxy_command
    }
}

pub open spec fn known_auth(existing: Option<&SavedAuth>) -> Option<SavedAuth> {
    match existing {
        Some(auth) => Some(*auth),
        None => None,
    }
}

fn make_request(
    form: &mut NewConnectionForm,
    prefix: &mut Vec<NewConnectionProxyHop>,
    id: Option<String>,
    existing: Option<&SavedAuth>,
) -> (res: Result<SaveConnectionRequest, SaveFormError>)
    ensures
        prefix_taken(final(prefix)@, old(prefix)@, res is Ok),
        match res {
            Ok(request) => {
                &&& fault(*old(form), old(prefix)@) is None
                &&& is_request(request, *old(form), old(prefix)@, id, known_auth(existing))
                &&& secrets_taken(*final(form), *old(form), known_auth(existing))
            },
            Err(error) => {
                &&& fault(*old(form), old(prefix)@) == Some(error)
                &&& *final(form) == *old(form)
            },
        },
{
    match find_fault(form, prefix) {
        Some(error) => {
            return Err(error);
        },
        None => {},
    }
    let name = make_name(form);
    let port: u16 = match parse_port(form.port.as_str()) {
        Some(port) => port,
        None => 0,
    };
    let connect_timeout_seconds: u64 = match parse_seconds(
        form.connect_timeout_seconds_text.as_str(),
    ) {
        Some(seconds) => seconds,
        None => 0,
    };
    let ghost start = *form;
    let auth = take_auth(form, existing);
    let ghost authed = *form;
    let upstream_proxy = match saved_upstream_proxy_policy_from_form(form) {
        Ok(policy) => policy,
        Err(error) => {
            return Err(error);
        },
    };
    let mut proxy_chain = take_hops(prefix);
    let ghost first = proxy_chain@;
    let mut own_hops = take_hops(&mut form.proxy_hops);
    let ghost second = own_hops@;
    proxy_chain.append(&mut own_hops);
    assert(proxy_chain@ =~= first + second);
    assert(is_chain(proxy_chain@, old(prefix)@, start.proxy_hops@)) by {
        assert forall|i: int| old(prefix)@.len() <= i < proxy_chain@.len() implies is_saved_hop(
            #[trigger] proxy_chain@[i],
            start.proxy_hops@[i - old(prefix)@.len()],
        ) by {
            assert(proxy_chain@[i] == second[i - first.len()]);
        }
        assert forall|i: int| 0 <= i < old(prefix)@.len() implies is_saved_hop(
            #[trigger] proxy_chain@[i],
            old(prefix)@[i],
        ) by {
            assert(proxy_chain@[i] == first[i]);
        }
    }
    let proxy_command = if form.proxy_command_enabled {
        Some(
            SavedProxyCommand {
                plaintext_command: Some(SecretText::new(take_text(&mut form.proxy_command))),
            },
        )
    } else {
        None
    };
    Ok(
        SaveConnectionRequest {
            id,
            name,
            host: text::trimmed(form.host.as_str()),
            port,
            username: text::trimmed(form.username.as_str()),
            notes: form.notes.clone(),
            group: form.group.clone(),
            auth,
            proxy_chain,
            upstream_proxy,
            proxy_command,
            icon: Some(form.icon.clone()),
            color: Some(form.color.clone()),
            icon_background_color: Some(form.icon_background_color.clone()),
            connect_timeout_seconds,
            agent_forwarding: form.agent_forwarding,
            identity_agent: fill(form.identity_agent.as_str()),
            agent_forwarding_socket: text::duplicate_option(&form.agent_forwarding_socket),
            legacy_ssh_compatibility: form.legacy_ssh_compatibility,
            ssh_algorithms: form.ssh_algorithms.duplicate(),
            dedicated_new_terminal_connection: form.dedicated_new_terminal_connection,
        },
    )
}

/// The hops before the form's once their secrets were handed over, where they were.
pub open spec fn prefix_taken(after: Seq<NewConnectionProxyHop>, before: Seq<NewConnectionProxyHop>, taken: bool) -> bool {
    if taken {
        &&& after.len() == before.len()
        &&& forall|i: int| 0 <= i < after.len() ==> hop_taken(#[trigger] after[i], before[i])
    } else {
        after == before
    }
}

/// Makes the request that stores the connection of a form. The form's secrets are handed over; a
/// form that cannot be stored keeps them.
pub fn save_request_from_form(form: &mut NewConnectionForm, id: Option<String>) -> (res: Result<SaveConnectionRequest, SaveFormError>)
    ensures
        match res {
            Ok(request) => {
                &&& fault(*old(form), Seq::empty()) is None
                &&& is_request(request, *old(form), Seq::empty(), id, None)
                &&& secrets_taken(*final(form), *old(form), None)
            },
            Err(error) => {
                &&& fault(*old(form), Seq::empty()) == Some(error)
                &&& *final(form) == *old(form)
            },
        },
{
    save_request_from_form_with_existing_auth(form, id, None)
}

/// Makes the request that stores the connection of a form in place of one that logs in with
/// `existing`.
pub fn save_request_from_form_with_existing_auth(form: &mut NewConnectionForm, id: Option<String>, existing: Option<&SavedAuth>) -> (res: Result<SaveConnectionRequest, SaveFormError>)
    ensures
        match res {
            Ok(request) => {
                &&& fault(*old(form), Seq::empty()) is None
                &&& is_request(request, *old(form), Seq::empty(), id, known_auth(existing))
                &&& secrets_taken(*final(form), *old(form), known_auth(existing))
            },
            Err(error) => {
                &&& fault(*old(form), Seq::empty()) == Some(error)
                &&& *final(form) == *old(form)
            },
        },
{
    let mut prefix: Vec<NewConnectionProxyHop> = Vec::new();
    assert(prefix@ =~= Seq::<NewConnectionProxyHop>::empty());
    make_request(form, &mut prefix, id, existing)
}

/// Makes the request that stores the connection of a form, with hops before the form's own.
pub fn save_request_from_form_with_proxy_hop_prefix(form: &mut NewConnectionForm, prefix: &mut Vec<NewConnectionProxyHop>, id: Option<String>) -> (res: Result<SaveConnectionRequest, SaveFormError>)
    ensures
        prefix_taken(final(prefix)@, old(prefix)@, res is Ok),
        match res {
            Ok(request) => {
                &&& fault(*old(form), old(prefix)@) is None
                &&& is_request(request, *old(form), old(prefix)@, id, None)
                &&& secrets_taken(*final(form), *old(form), None)
            },
            Err(error) => {
                &&& fault(*old(form), old(prefix)@) == Some(error)
                &&& *final(form) == *old(form)
            },
        },
{
    make_request(form, prefix, id, None)
}

/// The password, to be changed by the user: it is no longer the stored one.
pub fn password_draft_mut(form: &mut NewConnectionForm) -> (res: &mut String)
    ensures
        *res == old(form).password,
        *final(form) == (NewConnectionForm {
            password_from_store: false,
            password: *final(res),
            ..*old(form)
        }),
{
    form.password_from_store = false;
    &mut form.password
}

/// Nothing secret stays in a form that was stored: no password, passphrase or command that the
/// request carries is left in it.
pub proof fn law_handed_over_secrets_leave_the_form(
    before: NewConnectionForm,
    after: NewConnectionForm,
    existing: Option<SavedAuth>,
    request: SaveConnectionRequest,
    id: Option<String>,
)
    requires
        is_request(request, before, Seq::empty(), id, existing),
        secrets_taken(after, before, existing),
    ensures
        match request.auth@ {
            AuthView::Password { keychain_id, plaintext_password, empty_password } => plaintext_password
                is Some ==> after.password@.len() == 0,
            AuthView::Key { key_path, has_passphrase, passphrase_keychain_id, plaintext_passphrase } => plaintext_passphrase
                is Some ==> after.passphrase@.len() == 0,
            _ => true,
        },
        request.proxy_command is Some ==> after.proxy_command@.len() == 0,
{
}

} // verus!
