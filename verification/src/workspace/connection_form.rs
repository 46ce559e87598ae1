//! The form that a connection is entered in.

use vstd::prelude::*;

use crate::workspace::ssh_algorithms::SshAlgorithmPreferences;

verus! {

#[derive(Clone, Copy, PartialEq, Eq, Structural, Debug)]
pub enum NewConnectionTransport {
    Ssh,
    Ftp,
}

#[derive(Clone, Copy, PartialEq, Eq, Structural, Debug)]
pub enum SshAuthTab {
    Password,
    SshKey,
    Agent,
    TwoFactor,
}

#[derive(Clone, Copy, PartialEq, Eq, Structural, Debug)]
pub enum NewConnectionUpstreamProxyPolicy {
    UseGlobal,
    Custom,
}

#[derive(Clone, Copy, PartialEq, Eq, Structural, Debug)]
pub enum NewConnectionUpstreamProxyAuth {
    Nothing,
    Password,
}

/// What a form that could not be used says.
pub enum FormError {
    /// A text to look up.
    Key(&'static str),
    /// What something outside said.
    Message(String),
    /// A text to look up, and what something outside said.
    Failed(&'static str, String),
}

/// What a form that could not be used says, in words.
pub enum FormFault {
    Key(Seq<char>),
    Message(Seq<char>),
    Failed(Seq<char>, Seq<char>),
}

impl FormError {
    pub open spec fn view(self) -> FormFault {
        match self {
            FormError::Key(key) => FormFault::Key(key@),
            FormError::Message(message) => FormFault::Message(message@),
            FormError::Failed(key, message) => FormFault::Failed(key@, message@),
        }
    }
}

/// A host on the way to a connection's host.
pub struct NewConnectionProxyHop {
    pub saved_connection_id: String,
    /// Where the hop stands in the stored connection, where it comes from there.
    pub persisted_proxy_hop_index: Option<usize>,
    pub host: String,
    pub port: String,
    pub username: String,
    pub auth_tab: SshAuthTab,
    pub password: String,
    pub empty_password: bool,
    pub key_path: String,
    pub managed_key_id: String,
    pub cert_path: String,
    pub passphrase: String,
    pub gssapi_enabled: bool,
    pub gssapi_server_identity: String,
    pub gssapi_delegate_credentials: bool,
    pub agent_forwarding: bool,
    pub identity_agent: String,
    pub agent_forwarding_socket: Option<String>,
    pub legacy_ssh_compatibility: bool,
    pub ssh_algorithms: SshAlgorithmPreferences,
}

pub struct NewConnectionForm {
    pub transport: NewConnectionTransport,
    pub name: String,
    pub host: String,
    pub port: String,
    pub username: String,
    pub group: String,
    pub notes: String,
    pub icon: String,
    pub color: String,
    pub icon_background_color: String,
    pub connect_timeout_seconds_text: String,
    pub auth_tab: SshAuthTab,
    pub password: String,
    pub save_password: bool,
    /// The user wants to log in with an empty password.
    pub empty_password: bool,
    pub password_loaded: bool,
    /// The password is the stored one, shown to the user.
    pub password_from_store: bool,
    pub saved_password_keychain_id: Option<String>,
    pub key_path: String,
    pub passphrase: String,
    pub agent_forwarding: bool,
    pub identity_agent: String,
    pub agent_forwarding_socket: Option<String>,
    pub proxy_command_enabled: bool,
    pub proxy_command: String,
    pub proxy_chain_expanded: bool,
    pub proxy_hops: Vec<NewConnectionProxyHop>,
    pub upstream_proxy_policy: NewConnectionUpstreamProxyPolicy,
    pub upstream_proxy_host: String,
    pub upstream_proxy_port: String,
    pub upstream_proxy_auth: NewConnectionUpstreamProxyAuth,
    pub upstream_proxy_username: String,
    pub upstream_proxy_password: String,
    pub legacy_ssh_compatibility: bool,
    pub ssh_algorithms: SshAlgorithmPreferences,
    pub dedicated_new_terminal_connection: bool,
    pub sftp_initial_remote_path: String,
    pub ftp_tls: bool,
    pub ftp_profile_id: Option<String>,
    /// The attempt to connect that is under way.
    pub ftp_attempt: Option<String>,
    pub pending: bool,
    pub error: Option<FormError>,
}

impl SshAlgorithmPreferences {
    /// Whether every category follows its preset.
    pub open spec fn is_preset(self) -> bool {
        self.kex@.len() == 0 && self.host_key@.len() == 0 && self.cipher@.len() == 0
            && self.mac@.len() == 0 && self.compression@.len() == 0
    }

    pub fn preset() -> (res: SshAlgorithmPreferences)
        ensures
            res.is_preset(),
    {
        SshAlgorithmPreferences {
            kex: Vec::new(),
            host_key: Vec::new(),
            cipher: Vec::new(),
            mac: Vec::new(),
            compression: Vec::new(),
        }
    }
}

impl NewConnectionProxyHop {
    /// A hop that nothing has been entered for.
    pub fn new() -> (res: NewConnectionProxyHop)
        ensures
            res.host@.len() == 0,
            res.username@.len() == 0,
            res.port@ == "22"@,
            res.auth_tab == SshAuthTab::Agent,
            res.password@.len() == 0,
            !res.empty_password,
            res.key_path@.len() == 0,
            res.managed_key_id@.len() == 0,
            res.cert_path@.len() == 0,
            res.passphrase@.len() == 0,
            !res.gssapi_enabled,
            res.gssapi_server_identity@.len() == 0,
            !res.gssapi_delegate_credentials,
            res.saved_connection_id@.len() == 0,
            res.persisted_proxy_hop_index is None,
            !res.agent_forwarding,
            res.identity_agent@.len() == 0,
            res.agent_forwarding_socket is None,
            !res.legacy_ssh_compatibility,
            res.ssh_algorithms.is_preset(),
    {
        NewConnectionProxyHop {
            saved_connection_id: String::new(),
            persisted_proxy_hop_index: None,
            host: String::new(),
            port: "22".to_owned(),
            username: String::new(),
            auth_tab: SshAuthTab::Agent,
            password: String::new(),
            empty_password: false,
            key_path: String::new(),
            managed_key_id: String::new(),
            cert_path: String::new(),
            passphrase: String::new(),
            gssapi_enabled: false,
            gssapi_server_identity: String::new(),
            gssapi_delegate_credentials: false,
            agent_forwarding: false,
            identity_agent: String::new(),
            agent_forwarding_socket: None,
            legacy_ssh_compatibility: false,
            ssh_algorithms: SshAlgorithmPreferences::preset(),
        }
    }
}

impl NewConnectionForm {
    /// A form that nothing has been entered in.
    pub open spec fn is_blank(self) -> bool {
        &&& self.transport == NewConnectionTransport::Ssh
        &&& self.name@.len() == 0
        &&& self.host@.len() == 0
        &&& self.port@ == "22"@
        &&& self.username@.len() == 0
        &&& self.group@.len() == 0
        &&& self.notes@.len() == 0
        &&& self.icon@.len() == 0
        &&& self.color@.len() == 0
        &&& self.icon_background_color@.len() == 0
        &&& self.connect_timeout_seconds_text@ == "30"@
        &&& self.auth_tab == SshAuthTab::Password
        &&& self.password@.len() == 0
        &&& self.save_password
        &&& !self.empty_password
        &&& self.password_loaded
        &&& !self.password_from_store
        &&& self.saved_password_keychain_id is None
        &&& self.key_path@.len() == 0
        &&& self.passphrase@.len() == 0
        &&& !self.agent_forwarding
        &&& self.identity_agent@.len() == 0
        &&& self.agent_forwarding_socket is None
        &&& !self.proxy_command_enabled
        &&& self.proxy_command@.len() == 0
        &&& !self.proxy_chain_expanded
        &&& self.proxy_hops@.len() == 0
        &&& self.upstream_proxy_policy == NewConnectionUpstreamProxyPolicy::UseGlobal
        &&& self.upstream_proxy_host@.len() == 0
        &&& self.upstream_proxy_port@.len() == 0
        &&& self.upstream_proxy_auth == NewConnectionUpstreamProxyAuth::Nothing
        &&& self.upstream_proxy_username@.len() == 0
        &&& self.upstream_proxy_password@.len() == 0
        &&& !self.legacy_ssh_compatibility
        &&& self.ssh_algorithms.is_preset()
        &&& !self.dedicated_new_terminal_connection
        &&& self.sftp_initial_remote_path@.len() == 0
        &&& !self.ftp_tls
        &&& self.ftp_profile_id is None
        &&& self.ftp_attempt is None
        &&& !self.pending
        &&& self.error is None
    }
}

impl Default for NewConnectionForm {
    fn default() -> (res: NewConnectionForm)
        ensures
            res.is_blank(),
    {
        NewConnectionForm {
            transport: NewConnectionTransport::Ssh,
            name: String::new(),
            host: String::new(),
            port: "22".to_owned(),
            username: String::new(),
            group: String::new(),
            notes: String::new(),
            icon: String::new(),
            color: String::new(),
            icon_background_color: String::new(),
            connect_timeout_seconds_text: "30".to_owned(),
            auth_tab: SshAuthTab::Password,
            password: String::new(),
            save_password: true,
            empty_password: false,
            password_loaded: true,
            password_from_store: false,
            saved_password_keychain_id: None,
            key_path: String::new(),
            passphrase: String::new(),
            agent_forwarding: false,
            identity_agent: String::new(),
            agent_forwarding_socket: None,
            proxy_command_enabled: false,
            proxy_command: String::new(),
            proxy_chain_expanded: false,
            proxy_hops: Vec::new(),
            upstream_proxy_policy: NewConnectionUpstreamProxyPolicy::UseGlobal,
            upstream_proxy_host: String::new(),
            upstream_proxy_port: String::new(),
            upstream_proxy_auth: NewConnectionUpstreamProxyAuth::Nothing,
            upstream_proxy_username: String::new(),
            upstream_proxy_password: String::new(),
            legacy_ssh_compatibility: false,
            ssh_algorithms: SshAlgorithmPreferences::preset(),
            dedicated_new_terminal_connection: false,
            sftp_initial_remote_path: String::new(),
            ftp_tls: false,
            ftp_profile_id: None,
            ftp_attempt: None,
            pending: false,
            error: None,
        }
    }
}

} // verus!
