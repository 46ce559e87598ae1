//! What the assistant's tools can act on, and what each of them may do there.

use vstd::prelude::*;

use crate::table::Key;
use crate::text;

verus! {

/// Something that tools act on.
pub enum RuntimeOwnerId {
    LocalShell,
    /// A terminal session, whatever tab or pane shows it.
    Terminal(u64),
    /// The connection to a node.
    Node(String),
    /// The file session of a node.
    Sftp(String),
    /// The editor in a tab.
    Ide(u64),
    /// A mounted tab.
    Surface(u64),
}

/// Something that tools act on, in words.
pub enum OwnerName {
    LocalShell,
    Terminal(u64),
    Node(Seq<char>),
    Sftp(Seq<char>),
    Ide(u64),
    Surface(u64),
}

#[derive(Clone, Copy, PartialEq, Eq, Structural, Debug)]
pub enum RuntimeOwnerKind {
    LocalShell,
    Terminal,
    SshNode,
    SftpSession,
    IdeSurface,
    AppSurface,
}

#[derive(Clone, Copy, PartialEq, Eq, Structural, Debug)]
pub enum RuntimeCapability {
    LocalShellRunCommand,
    TerminalObserve,
    TerminalRunCommand,
    TerminalSendInput,
    NodeInspect,
    SftpRead,
    SftpWrite,
    SftpStartTransfer,
    IdeRead,
    IdeWrite,
    SurfaceFocus,
}

impl OwnerName {
    pub open spec fn kind(self) -> RuntimeOwnerKind {
        match self {
            OwnerName::LocalShell => RuntimeOwnerKind::LocalShell,
            OwnerName::Terminal(_) => RuntimeOwnerKind::Terminal,
            OwnerName::Node(_) => RuntimeOwnerKind::SshNode,
            OwnerName::Sftp(_) => RuntimeOwnerKind::SftpSession,
            OwnerName::Ide(_) => RuntimeOwnerKind::IdeSurface,
            OwnerName::Surface(_) => RuntimeOwnerKind::AppSurface,
        }
    }
}

impl RuntimeOwnerId {
    pub fn kind(&self) -> (res: RuntimeOwnerKind)
        ensures
            res == self.id().kind(),
    {
        match self {
            RuntimeOwnerId::LocalShell => RuntimeOwnerKind::LocalShell,
            RuntimeOwnerId::Terminal(_) => RuntimeOwnerKind::Terminal,
            RuntimeOwnerId::Node(_) => RuntimeOwnerKind::SshNode,
            RuntimeOwnerId::Sftp(_) => RuntimeOwnerKind::SftpSession,
            RuntimeOwnerId::Ide(_) => RuntimeOwnerKind::IdeSurface,
            RuntimeOwnerId::Surface(_) => RuntimeOwnerKind::AppSurface,
        }
    }
}

impl Key for RuntimeOwnerId {
    type Id = OwnerName;

    open spec fn id(&self) -> OwnerName {
        match self {
            RuntimeOwnerId::LocalShell => OwnerName::LocalShell,
            RuntimeOwnerId::Terminal(session) => OwnerName::Terminal(*session),
            RuntimeOwnerId::Node(node) => OwnerName::Node(node@),
            RuntimeOwnerId::Sftp(node) => OwnerName::Sftp(node@),
            RuntimeOwnerId::Ide(tab) => OwnerName::Ide(*tab),
            RuntimeOwnerId::Surface(tab) => OwnerName::Surface(*tab),
        }
    }

    fn matches(&self, other: &Self) -> (res: bool) {
        match (self, other) {
            (RuntimeOwnerId::LocalShell, RuntimeOwnerId::LocalShell) => true,
            (RuntimeOwnerId::Terminal(a), RuntimeOwnerId::Terminal(b)) => *a == *b,
            (RuntimeOwnerId::Node(a), RuntimeOwnerId::Node(b)) => text::same(a.as_str(), b.as_str()),
            (RuntimeOwnerId::Sftp(a), RuntimeOwnerId::Sftp(b)) => text::same(a.as_str(), b.as_str()),
            (RuntimeOwnerId::Ide(a), RuntimeOwnerId::Ide(b)) => *a == *b,
            (RuntimeOwnerId::Surface(a), RuntimeOwnerId::Surface(b)) => *a == *b,
            _ => false,
        }
    }

    fn duplicate(&self) -> (res: Self) {
        match self {
            RuntimeOwnerId::LocalShell => RuntimeOwnerId::LocalShell,
            RuntimeOwnerId::Terminal(session) => RuntimeOwnerId::Terminal(*session),
            RuntimeOwnerId::Node(node) => RuntimeOwnerId::Node(node.clone()),
            RuntimeOwnerId::Sftp(node) => RuntimeOwnerId::Sftp(node.clone()),
            RuntimeOwnerId::Ide(tab) => RuntimeOwnerId::Ide(*tab),
            RuntimeOwnerId::Surface(tab) => RuntimeOwnerId::Surface(*tab),
        }
    }
}

impl RuntimeOwnerKind {
    /// What a tool may do with something of a kind.
    pub open spec fn grants(self, capability: RuntimeCapability) -> bool {
        match capability {
            RuntimeCapability::LocalShellRunCommand => self == RuntimeOwnerKind::LocalShell,
            RuntimeCapability::TerminalObserve | RuntimeCapability::TerminalRunCommand
            | RuntimeCapability::TerminalSendInput => self == RuntimeOwnerKind::Terminal,
            RuntimeCapability::NodeInspect => self == RuntimeOwnerKind::SshNode,
            RuntimeCapability::SftpRead | RuntimeCapability::SftpWrite
            | RuntimeCapability::SftpStartTransfer => self == RuntimeOwnerKind::SftpSession,
            RuntimeCapability::IdeRead | RuntimeCapability::IdeWrite => self
                == RuntimeOwnerKind::IdeSurface,
            RuntimeCapability::SurfaceFocus => self == RuntimeOwnerKind::AppSurface,
        }
    }

    pub fn permits(self, capability: RuntimeCapability) -> (res: bool)
        ensures
            res == self.grants(capability),
    {
        match capability {
            RuntimeCapability::LocalShellRunCommand => self == RuntimeOwnerKind::LocalShell,
            RuntimeCapability::TerminalObserve | RuntimeCapability::TerminalRunCommand
            | RuntimeCapability::TerminalSendInput => self == RuntimeOwnerKind::Terminal,
            RuntimeCapability::NodeInspect => self == RuntimeOwnerKind::SshNode,
            RuntimeCapability::SftpRead | RuntimeCapability::SftpWrite
            | RuntimeCapability::SftpStartTransfer => self == RuntimeOwnerKind::SftpSession,
            RuntimeCapability::IdeRead | RuntimeCapability::IdeWrite => self
                == RuntimeOwnerKind::IdeSurface,
            RuntimeCapability::SurfaceFocus => self == RuntimeOwnerKind::AppSurface,
        }
    }
}

/// Why a handle is refused.
#[derive(Clone, Copy, PartialEq, Eq, Structural, Debug)]
pub enum RuntimeValidationFailure {
    MissingHandle,
    UnknownHandle,
    SessionEnded,
    OwnerClosed,
    OwnerReplaced,
    NotPermitted,
    CapabilityUnavailable,
}

impl RuntimeValidationFailure {
    /// The code under which a refusal is reported to a model.
    pub open spec fn code(self) -> Seq<char> {
        match self {
            RuntimeValidationFailure::MissingHandle => "runtime_handle_missing"@,
            RuntimeValidationFailure::UnknownHandle => "runtime_handle_unknown"@,
            RuntimeValidationFailure::SessionEnded => "runtime_session_ended"@,
            RuntimeValidationFailure::OwnerClosed => "runtime_owner_closed"@,
            RuntimeValidationFailure::OwnerReplaced => "runtime_owner_replaced"@,
            RuntimeValidationFailure::NotPermitted => "runtime_owner_not_permitted"@,
            RuntimeValidationFailure::CapabilityUnavailable => "runtime_capability_unavailable"@,
        }
    }

    pub fn public_code(self) -> (res: &'static str)
        ensures
            res@ == self.code(),
    {
        match self {
            RuntimeValidationFailure::MissingHandle => "runtime_handle_missing",
            RuntimeValidationFailure::UnknownHandle => "runtime_handle_unknown",
            RuntimeValidationFailure::SessionEnded => "runtime_session_ended",
            RuntimeValidationFailure::OwnerClosed => "runtime_owner_closed",
            RuntimeValidationFailure::OwnerReplaced => "runtime_owner_replaced",
            RuntimeValidationFailure::NotPermitted => "runtime_owner_not_permitted",
            RuntimeValidationFailure::CapabilityUnavailable => "runtime_capability_unavailable",
        }
    }
}

/// Why no handle is given out.
#[derive(Clone, Copy, PartialEq, Eq, Structural, Debug)]
pub enum RuntimeContextError {
    OwnerNotFound,
    SessionNotFound,
    NotPermitted,
}

/// What stands behind an owner. Another one means that the owner was replaced.
pub enum Backing {
    Itself,
    Connection(String),
    Session { connection: String, generation: u64 },
    Node(String),
}

/// What stands behind an owner, in words.
pub enum BackingView {
    Itself,
    Connection(Seq<char>),
    Session { connection: Seq<char>, generation: u64 },
    Node(Seq<char>),
}

impl Backing {
    pub open spec fn view(self) -> BackingView {
        match self {
            Backing::Itself => BackingView::Itself,
            Backing::Connection(connection) => BackingView::Connection(connection@),
            Backing::Session { connection, generation } => BackingView::Session {
                connection: connection@,
                generation,
            },
            Backing::Node(node) => BackingView::Node(node@),
        }
    }

    pub fn same(&self, other: &Backing) -> (res: bool)
        ensures
            res == (self@ == other@),
    {
        match (self, other) {
            (Backing::Itself, Backing::Itself) => true,
            (Backing::Connection(a), Backing::Connection(b)) => text::same(a.as_str(), b.as_str()),
            (
                Backing::Session { connection: a, generation: x },
                Backing::Session { connection: b, generation: y },
            ) => text::same(a.as_str(), b.as_str()) && *x == *y,
            (Backing::Node(a), Backing::Node(b)) => text::same(a.as_str(), b.as_str()),
            _ => false,
        }
    }
}

/// A registered owner.
pub struct OwnerRecord {
    pub name: RuntimeOwnerId,
    pub generation: u64,
    pub backing: Backing,
    pub label: String,
    pub resource_ref: Option<String>,
}

/// A handle that was given out: it is good for one session and one generation of an owner.
pub struct HandleLease {
    pub number: u64,
    pub session: u64,
    pub owner: u64,
    pub generation: u64,
}

/// What a model may know of a handle.
pub struct RuntimeHandleProjection {
    pub handle_id: String,
    pub label: String,
    pub kind: RuntimeOwnerKind,
    pub resource_ref: Option<String>,
}

/// Where a command runs.
#[derive(Clone, Copy, PartialEq, Eq, Structural, Debug)]
pub enum AiRunCommandOwner {
    Terminal(u64),
    LocalShell,
}

/// The file session that a handle stands for.
pub struct AiSftpRuntimeOwner {
    pub node_id: String,
    pub connection_id: String,
    pub session_generation: u64,
}

} // verus!
