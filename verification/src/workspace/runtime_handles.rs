//! Handles: how a model names what its tools act on.

use vstd::prelude::*;

use crate::table::Key;
use crate::text;
use crate::workspace::runtime_context::{
    handle_text, is_handle_text, lemma_handle_text, lemma_is_handle_text, reads_as_handle,
    AiRuntimeContextEntity, ToolSession, Which,
};
use crate::workspace::runtime_owners::{
    AiRunCommandOwner, AiSftpRuntimeOwner, Backing, BackingView, HandleLease, OwnerName, OwnerRecord,
    RuntimeCapability, RuntimeContextError, RuntimeHandleProjection, RuntimeOwnerId, RuntimeOwnerKind,
    RuntimeValidationFailure,
};

verus! {

proof fn lemma_pushed(list: Seq<u64>, added: u64, key: u64)
    ensures
        list.push(added).contains(key) == (list.contains(key) || key == added),
{
    if list.contains(key) {
        let i = choose|i: int| 0 <= i < list.len() && list[i] == key;
        assert(list.push(added)[i] == key);
    }
    if key == added {
        assert(list.push(added)[list.len() as int] == key);
    }
}

/// The owners of a list that another list has too.
fn common(limits: &Vec<u64>, targets: &Vec<u64>) -> (res: Vec<u64>)
    ensures
        forall|key: u64| #[trigger]
            res@.contains(key) == (limits@.contains(key) && targets@.contains(key)),
{
    let mut res: Vec<u64> = Vec::new();
    let mut i: usize = 0;
    while i < limits.len()
        invariant
            i <= limits.len(),
            forall|key: u64| #[trigger]
                res@.contains(key) == (limits@.take(i as int).contains(key) && targets@.contains(key)),
        decreases limits.len() - i,
    {
        let ghost before = res@;
        assert(limits@.take(i + 1) =~= limits@.take(i as int).push(limits@[i as int]));
        if lists(targets, limits[i]) {
            res.push(limits[i]);
        }
        assert forall|key: u64| #[trigger] res@.contains(key) == (limits@.take(i + 1).contains(key)
            && targets@.contains(key)) by {
            lemma_pushed(limits@.take(i as int), limits@[i as int], key);
            lemma_pushed(before, limits@[i as int], key);
        }
        i += 1;
    }
    assert(limits@.take(limits@.len() as int) =~= limits@);
    res
}

fn lists(list: &Vec<u64>, wanted: u64) -> (res: bool)
    ensures
        res == list@.contains(wanted),
{
    let mut i: usize = 0;
    while i < list.len()
        invariant
            i <= list.len(),
            forall|j: int| 0 <= j < i ==> list@[j] != wanted,
        decreases list.len() - i,
    {
        if list[i] == wanted {
            assert(list@[i as int] == wanted);
            return true;
        }
        i += 1;
    }
    false
}

fn duplicate_keys(list: &Vec<u64>) -> (res: Vec<u64>)
    ensures
        res@ == list@,
{
    let mut res: Vec<u64> = Vec::new();
    let mut i: usize = 0;
    while i < list.len()
        invariant
            i <= list.len(),
            res@ == list@.take(i as int),
        decreases list.len() - i,
    {
        res.push(list[i]);
        assert(res@ =~= list@.take(i + 1));
        i += 1;
    }
    assert(list@.take(list@.len() as int) =~= list@);
    res
}

impl AiRuntimeContextEntity {
    /// Whether a session is limited to some owners.
    pub open spec fn is_limited(self, session: u64) -> bool {
        self.sessions@.dom().contains(session) && self.sessions@[session].limits is Some
    }

    pub fn is_agent_scoped_session(&self, session: u64) -> (res: bool)
        requires
            self.wf(),
        ensures
            res == self.is_limited(session),
    {
        match self.sessions.get(&session) {
            Some(found) => found.limits.is_some(),
            None => false,
        }
    }

    /// Whether a session may act on an owner.
    pub open spec fn permits(self, session: u64, key: u64) -> bool {
        self.sessions@.dom().contains(session) && match self.sessions@[session].limits {
            Some(limits) => limits@.contains(key),
            None => true,
        }
    }

    fn permits_owner(&self, session: u64, key: u64) -> (res: bool)
        requires
            self.wf(),
        ensures
            res == self.permits(session, key),
    {
        match self.sessions.get(&session) {
            Some(found) => match &found.limits {
                Some(limits) => lists(limits, key),
                None => true,
            },
            None => false,
        }
    }

    /// A session was limited to some owners: whatever it could not reach before it cannot reach now.
    pub open spec fn limited(self, before: AiRuntimeContextEntity, session: u64, targets: Seq<u64>) -> bool {
        &&& self == (AiRuntimeContextEntity { sessions: self.sessions, ..before })
        &&& self.sessions@ == before.sessions@.insert(session, self.sessions@[session])
        &&& self.is_limited(session)
        &&& forall|key: u64| #[trigger]
            self.permits(session, key) == (before.permits(session, key) && targets.contains(key))
    }

    /// Limits a session to some owners, and to fewer with every call.
    pub fn restrict_agent_session(&mut self, session: u64, targets: &Vec<u64>) -> (res: Result<
        (),
        RuntimeContextError,
    >)
        requires
            old(self).wf(),
        ensures
            final(self).wf(),
            match res {
                Ok(_) => old(self).sessions@.dom().contains(session) && final(self).limited(
                    *old(self),
                    session,
                    targets@,
                ),
                Err(error) => !old(self).sessions@.dom().contains(session) && error
                    == RuntimeContextError::SessionNotFound && *final(self) == *old(self),
            },
    {
        let limits = match self.sessions.get(&session) {
            Some(found) => match &found.limits {
                Some(limits) => common(limits, targets),
                None => duplicate_keys(targets),
            },
            None => {
                return Err(RuntimeContextError::SessionNotFound);
            },
        };
        self.sessions.insert(session, ToolSession { limits: Some(limits) });
        Ok(())
    }

    /// The key of a terminal session.
    pub fn terminal_resource_key(&self, session_id: u64) -> (res: Option<u64>)
        requires
            self.wf(),
        ensures
            res == if self.names@.dom().contains(OwnerName::Terminal(session_id)) {
                Some(self.names@[OwnerName::Terminal(session_id)])
            } else {
                None
            },
    {
        match self.names.get(&RuntimeOwnerId::Terminal(session_id)) {
            Some(key) => Some(*key),
            None => None,
        }
    }

    pub fn agent_can_observe_terminal(&self, session: u64, terminal: u64) -> (res: bool)
        requires
            self.wf(),
        ensures
            res == (self.names@.dom().contains(OwnerName::Terminal(terminal)) && self.permits(
                session,
                self.names@[OwnerName::Terminal(terminal)],
            )),
    {
        match self.terminal_resource_key(terminal) {
            Some(key) => self.permits_owner(session, key),
            None => false,
        }
    }

    /// Why no handle to an owner is given out in a session, if none is.
    pub open spec fn issue_error(self, session: u64, name: OwnerName) -> Option<RuntimeContextError> {
        if !self.names@.dom().contains(name) {
            Some(RuntimeContextError::OwnerNotFound)
        } else if !self.sessions@.dom().contains(session) {
            Some(RuntimeContextError::SessionNotFound)
        } else if !self.permits(session, self.names@[name]) {
            Some(RuntimeContextError::NotPermitted)
        } else {
            None
        }
    }

    /// A handle to an owner was given out.
    pub open spec fn issued(self, before: AiRuntimeContextEntity, session: u64, name: OwnerName) -> bool {
        let key = before.names@[name];
        &&& self == (AiRuntimeContextEntity { serial: self.serial, leases: self.leases, ..before })
        &&& self.serial == before.serial + 1
        &&& self.leases@ == before.leases@.insert(
            handle_text(self.serial),
            HandleLease {
                number: self.serial,
                session,
                owner: key,
                generation: before.records@[key].generation,
            },
        )
    }

    /// What a model learns of a handle.
    pub open spec fn projects(self, projection: RuntimeHandleProjection, id: Seq<char>, key: u64) -> bool {
        &&& projection.handle_id@ == id
        &&& projection.label == self.records@[key].label
        &&& projection.kind == self.records@[key].name.id().kind()
        &&& text::opt_view(projection.resource_ref) == text::opt_view(self.records@[key].resource_ref)
    }

    fn project(&self, handle_id: String, record: &OwnerRecord) -> (res: RuntimeHandleProjection)
        ensures
            res.handle_id == handle_id,
            res.label == record.label,
            res.kind == record.name.id().kind(),
            text::opt_view(res.resource_ref) == text::opt_view(record.resource_ref),
    {
        RuntimeHandleProjection {
            handle_id,
            label: record.label.clone(),
            kind: record.name.kind(),
            resource_ref: text::duplicate_option(&record.resource_ref),
        }
    }

    fn issue(&mut self, session: u64, name: RuntimeOwnerId) -> (res: Result<
        RuntimeHandleProjection,
        RuntimeContextError,
    >)
        requires
            old(self).wf(),
            old(self).serial < u64::MAX,
        ensures
            final(self).wf(),
            match res {
                Ok(projection) => {
                    &&& old(self).issue_error(session, name.id()) is None
                    &&& final(self).issued(*old(self), session, name.id())
                    &&& final(self).projects(
                        projection,
                        handle_text(final(self).serial),
                        old(self).names@[name.id()],
                    )
                },
                Err(error) => old(self).issue_error(session, name.id()) == Some(error) && *final(self)
                    == *old(self),
            },
    {
        let key: u64 = match self.names.get(&name) {
            Some(key) => *key,
            None => {
                return Err(RuntimeContextError::OwnerNotFound);
            },
        };
        if !self.sessions.contains(&session) {
            return Err(RuntimeContextError::SessionNotFound);
        }
        if !self.permits_owner(session, key) {
            return Err(RuntimeContextError::NotPermitted);
        }
        let number: u64 = self.serial + 1;
        let id = text::joined("runtime-", text::number(number).as_str());
        match self.records.get(&key) {
            Some(record) => {
                let generation: u64 = record.generation;
                let projection = self.project(id.clone(), record);
                self.serial = number;
                self.leases.insert(id, HandleLease { number, session, owner: key, generation });
                Ok(projection)
            },
            None => Err(RuntimeContextError::OwnerNotFound),
        }
    }

    pub fn issue_terminal_handle(&mut self, tool_session_id: u64, session_id: u64) -> (res: Result<
        RuntimeHandleProjection,
        RuntimeContextError,
    >)
        requires
            old(self).wf(),
            old(self).serial < u64::MAX,
        ensures
            final(self).wf(),
            issue_answered(*old(self), *final(self), tool_session_id, OwnerName::Terminal(session_id), res),
    {
        self.issue(tool_session_id, RuntimeOwnerId::Terminal(session_id))
    }

    pub fn issue_local_shell_handle(&mut self, tool_session_id: u64) -> (res: Result<
        RuntimeHandleProjection,
        RuntimeContextError,
    >)
        requires
            old(self).wf(),
            old(self).serial < u64::MAX,
        ensures
            final(self).wf(),
            issue_answered(*old(self), *final(self), tool_session_id, OwnerName::LocalShell, res),
    {
        self.issue(tool_session_id, RuntimeOwnerId::LocalShell)
    }

    /// A handle to a node's connection says nothing about its terminals or files.
    pub fn issue_node_handle(&mut self, tool_session_id: u64, node_id: &str) -> (res: Result<
        RuntimeHandleProjection,
        RuntimeContextError,
    >)
        requires
            old(self).wf(),
            old(self).serial < u64::MAX,
        ensures
            final(self).wf(),
            issue_answered(*old(self), *final(self), tool_session_id, OwnerName::Node(node_id@), res),
    {
        self.issue(tool_session_id, RuntimeOwnerId::Node(node_id.to_owned()))
    }

    pub fn issue_sftp_handle(&mut self, tool_session_id: u64, node_id: &str) -> (res: Result<
        RuntimeHandleProjection,
        RuntimeContextError,
    >)
        requires
            old(self).wf(),
            old(self).serial < u64::MAX,
        ensures
            final(self).wf(),
            issue_answered(*old(self), *final(self), tool_session_id, OwnerName::Sftp(node_id@), res),
    {
        self.issue(tool_session_id, RuntimeOwnerId::Sftp(node_id.to_owned()))
    }

    pub fn issue_ide_handle(&mut self, tool_session_id: u64, tab_id: u64) -> (res: Result<
        RuntimeHandleProjection,
        RuntimeContextError,
    >)
        requires
            old(self).wf(),
            old(self).serial < u64::MAX,
        ensures
            final(self).wf(),
            issue_answered(*old(self), *final(self), tool_session_id, OwnerName::Ide(tab_id), res),
    {
        self.issue(tool_session_id, RuntimeOwnerId::Ide(tab_id))
    }

    pub fn issue_app_surface_handle(&mut self, tool_session_id: u64, tab_id: u64) -> (res: Result<
        RuntimeHandleProjection,
        RuntimeContextError,
    >)
        requires
            old(self).wf(),
            old(self).serial < u64::MAX,
        ensures
            final(self).wf(),
            issue_answered(*old(self), *final(self), tool_session_id, OwnerName::Surface(tab_id), res),
    {
        self.issue(tool_session_id, RuntimeOwnerId::Surface(tab_id))
    }

    /// The owner that a handle stands for in a session, or why it stands for none. A text that is
    /// not written as handles are is unknown, whatever became of the session.
    pub open spec fn resolved(self, session: u64, raw: Option<Seq<char>>) -> Result<u64, RuntimeValidationFailure> {
        match raw {
            None => Err(RuntimeValidationFailure::MissingHandle),
            Some(id) => if !is_handle_text(id) {
                Err(RuntimeValidationFailure::UnknownHandle)
            } else if !self.sessions@.dom().contains(session) {
                Err(RuntimeValidationFailure::SessionEnded)
            } else if !self.leases@.dom().contains(id) || self.leases@[id].session != session {
                Err(RuntimeValidationFailure::UnknownHandle)
            } else {
                let lease = self.leases@[id];
                if !self.records@.dom().contains(lease.owner) {
                    Err(RuntimeValidationFailure::OwnerClosed)
                } else if !self.permits(session, lease.owner) {
                    Err(RuntimeValidationFailure::NotPermitted)
                } else if self.records@[lease.owner].generation != lease.generation {
                    Err(RuntimeValidationFailure::OwnerReplaced)
                } else {
                    Ok(lease.owner)
                }
            },
        }
    }

    fn resolve(&self, session: u64, raw: Option<&str>) -> (res: Result<u64, RuntimeValidationFailure>)
        requires
            self.wf(),
        ensures
            res == self.resolved(session, raw_view(raw)),
    {
        let id = match raw {
            Some(id) => id.to_owned(),
            None => {
                return Err(RuntimeValidationFailure::MissingHandle);
            },
        };
        if !reads_as_handle(id.as_str()) {
            return Err(RuntimeValidationFailure::UnknownHandle);
        }
        if !self.sessions.contains(&session) {
            return Err(RuntimeValidationFailure::SessionEnded);
        }
        match self.leases.get(&id) {
            Some(lease) => {
                if lease.session != session {
                    return Err(RuntimeValidationFailure::UnknownHandle);
                }
                match self.records.get(&lease.owner) {
                    Some(record) => {
                        if !self.permits_owner(session, lease.owner) {
                            Err(RuntimeValidationFailure::NotPermitted)
                        } else if record.generation != lease.generation {
                            Err(RuntimeValidationFailure::OwnerReplaced)
                        } else {
                            Ok(lease.owner)
                        }
                    },
                    None => Err(RuntimeValidationFailure::OwnerClosed),
                }
            },
            None => Err(RuntimeValidationFailure::UnknownHandle),
        }
    }

    /// The owner that a handle lets a tool act on, or why it does not.
    pub open spec fn granted(
        self,
        session: u64,
        raw: Option<Seq<char>>,
        capability: RuntimeCapability,
        kind: RuntimeOwnerKind,
    ) -> Result<OwnerName, RuntimeValidationFailure> {
        match self.resolved(session, raw) {
            Err(failure) => Err(failure),
            Ok(key) => {
                let name = self.records@[key].name.id();
                if name.kind().grants(capability) && name.kind() == kind {
                    Ok(name)
                } else {
                    Err(RuntimeValidationFailure::CapabilityUnavailable)
                }
            },
        }
    }

    fn validate_handle_for_kind(
        &self,
        session: u64,
        raw: Option<&str>,
        capability: RuntimeCapability,
        kind: RuntimeOwnerKind,
    ) -> (res: Result<&OwnerRecord, RuntimeValidationFailure>)
        requires
            self.wf(),
        ensures
            match res {
                Ok(record) => {
                    &&& self.resolved(session, raw_view(raw)) is Ok
                    &&& *record == self.records@[self.resolved(session, raw_view(raw))->Ok_0]
                    &&& self.granted(session, raw_view(raw), capability, kind) == Result::<
                        OwnerName,
                        RuntimeValidationFailure,
                    >::Ok(record.name.id())
                },
                Err(failure) => self.granted(session, raw_view(raw), capability, kind) == Result::<
                    OwnerName,
                    RuntimeValidationFailure,
                >::Err(failure),
            },
    {
        match self.resolve(session, raw) {
            Ok(key) => match self.records.get(&key) {
                Some(record) => {
                    let own = record.name.kind();
                    if own.permits(capability) && own == kind {
                        Ok(record)
                    } else {
                        Err(RuntimeValidationFailure::CapabilityUnavailable)
                    }
                },
                None => Err(RuntimeValidationFailure::OwnerClosed),
            },
            Err(failure) => Err(failure),
        }
    }

    /// The terminal session that a handle lets a tool act on.
    pub fn validate_terminal_handle(
        &self,
        tool_session_id: u64,
        raw_handle_id: Option<&str>,
        capability: RuntimeCapability,
    ) -> (res: Result<u64, RuntimeValidationFailure>)
        requires
            self.wf(),
        ensures
            self.granted(tool_session_id, raw_view(raw_handle_id), capability, RuntimeOwnerKind::Terminal)
                == match res {
                Ok(session) => Ok(OwnerName::Terminal(session)),
                Err(failure) => Err(failure),
            },
    {
        match self.validate_handle_for_kind(
            tool_session_id,
            raw_handle_id,
            capability,
            RuntimeOwnerKind::Terminal,
        ) {
            Ok(record) => match &record.name {
                RuntimeOwnerId::Terminal(session) => Ok(*session),
                _ => Err(RuntimeValidationFailure::CapabilityUnavailable),
            },
            Err(failure) => Err(failure),
        }
    }

    /// The node that a handle lets a tool look at.
    pub fn validate_node_handle(&self, tool_session_id: u64, raw_handle_id: Option<&str>) -> (res: Result<
        String,
        RuntimeValidationFailure,
    >)
        requires
            self.wf(),
        ensures
            self.granted(
                tool_session_id,
                raw_view(raw_handle_id),
                RuntimeCapability::NodeInspect,
                RuntimeOwnerKind::SshNode,
            ) == match res {
                Ok(node) => Ok(OwnerName::Node(node@)),
                Err(failure) => Err(failure),
            },
    {
        match self.validate_handle_for_kind(
            tool_session_id,
            raw_handle_id,
            RuntimeCapability::NodeInspect,
            RuntimeOwnerKind::SshNode,
        ) {
            Ok(record) => match &record.name {
                RuntimeOwnerId::Node(node) => Ok(node.clone()),
                _ => Err(RuntimeValidationFailure::CapabilityUnavailable),
            },
            Err(failure) => Err(failure),
        }
    }

    /// Where a handle lets a tool run a command. A handle to a terminal is never one to the local
    /// shell, nor the other way round.
    pub fn validate_run_command_handle(&self, tool_session_id: u64, raw_handle_id: Option<&str>) -> (res: Result<
        AiRunCommandOwner,
        RuntimeValidationFailure,
    >)
        requires
            self.wf(),
        ensures
            match self.resolved(tool_session_id, raw_view(raw_handle_id)) {
                Err(failure) => res == Result::<AiRunCommandOwner, RuntimeValidationFailure>::Err(failure),
                Ok(key) => res == match self.records@[key].name.id() {
                    OwnerName::Terminal(session) => Ok(AiRunCommandOwner::Terminal(session)),
                    OwnerName::LocalShell => Ok(AiRunCommandOwner::LocalShell),
                    _ => Err(RuntimeValidationFailure::CapabilityUnavailable),
                },
            },
    {
        match self.validate_terminal_handle(
            tool_session_id,
            raw_handle_id,
            RuntimeCapability::TerminalRunCommand,
        ) {
            Ok(session) => Ok(AiRunCommandOwner::Terminal(session)),
            Err(failure) => {
                if failure != RuntimeValidationFailure::CapabilityUnavailable {
                    return Err(failure);
                }
                match self.validate_handle_for_kind(
                    tool_session_id,
                    raw_handle_id,
                    RuntimeCapability::LocalShellRunCommand,
                    RuntimeOwnerKind::LocalShell,
                ) {
                    Ok(_) => Ok(AiRunCommandOwner::LocalShell),
                    Err(failure) => Err(failure),
                }
            },
        }
    }

    /// The file session that a handle lets a tool act on.
    pub fn validate_sftp_handle(
        &self,
        tool_session_id: u64,
        raw_handle_id: Option<&str>,
        capability: RuntimeCapability,
    ) -> (res: Result<AiSftpRuntimeOwner, RuntimeValidationFailure>)
        requires
            self.wf(),
        ensures
            self.granted(
                tool_session_id,
                raw_view(raw_handle_id),
                capability,
                RuntimeOwnerKind::SftpSession,
            ) == match res {
                Ok(owner) => Ok(OwnerName::Sftp(owner.node_id@)),
                Err(failure) => Err(failure),
            },
            res matches Ok(owner) ==> self.records@[self.resolved(
                tool_session_id,
                raw_view(raw_handle_id),
            )->Ok_0].backing@ == (BackingView::Session {
                connection: owner.connection_id@,
                generation: owner.session_generation,
            }),
    {
        match self.validate_handle_for_kind(
            tool_session_id,
            raw_handle_id,
            capability,
            RuntimeOwnerKind::SftpSession,
        ) {
            Ok(record) => match (&record.name, &record.backing) {
                (RuntimeOwnerId::Sftp(node), Backing::Session { connection, generation }) => Ok(
                    AiSftpRuntimeOwner {
                        node_id: node.clone(),
                        connection_id: connection.clone(),
                        session_generation: *generation,
                    },
                ),
                _ => Err(RuntimeValidationFailure::OwnerClosed),
            },
            Err(failure) => Err(failure),
        }
    }

    /// The editor that a handle lets a tool act on, and its node.
    pub fn validate_ide_handle(
        &self,
        tool_session_id: u64,
        raw_handle_id: Option<&str>,
        capability: RuntimeCapability,
    ) -> (res: Result<(u64, String), RuntimeValidationFailure>)
        requires
            self.wf(),
        ensures
            self.granted(
                tool_session_id,
                raw_view(raw_handle_id),
                capability,
                RuntimeOwnerKind::IdeSurface,
            ) == match res {
                Ok((tab, _)) => Ok(OwnerName::Ide(tab)),
                Err(failure) => Err(failure),
            },
            res matches Ok((_, node)) ==> self.records@[self.resolved(
                tool_session_id,
                raw_view(raw_handle_id),
            )->Ok_0].backing@ == BackingView::Node(node@),
    {
        match self.validate_handle_for_kind(
            tool_session_id,
            raw_handle_id,
            capability,
            RuntimeOwnerKind::IdeSurface,
        ) {
            Ok(record) => match (&record.name, &record.backing) {
                (RuntimeOwnerId::Ide(tab), Backing::Node(node)) => Ok((*tab, node.clone())),
                _ => Err(RuntimeValidationFailure::OwnerClosed),
            },
            Err(failure) => Err(failure),
        }
    }

    /// The tab that a handle lets a tool bring to the front.
    pub fn validate_app_surface_handle(&self, tool_session_id: u64, raw_handle_id: Option<&str>) -> (res: Result<
        u64,
        RuntimeValidationFailure,
    >)
        requires
            self.wf(),
        ensures
            self.granted(
                tool_session_id,
                raw_view(raw_handle_id),
                RuntimeCapability::SurfaceFocus,
                RuntimeOwnerKind::AppSurface,
            ) == match res {
                Ok(tab) => Ok(OwnerName::Surface(tab)),
                Err(failure) => Err(failure),
            },
    {
        match self.validate_handle_for_kind(
            tool_session_id,
            raw_handle_id,
            RuntimeCapability::SurfaceFocus,
            RuntimeOwnerKind::AppSurface,
        ) {
            Ok(record) => match &record.name {
                RuntimeOwnerId::Surface(tab) => Ok(*tab),
                _ => Err(RuntimeValidationFailure::CapabilityUnavailable),
            },
            Err(failure) => Err(failure),
        }
    }

    /// What a model may know of what a handle stands for.
    pub fn validate_state_handle(&self, tool_session_id: u64, raw_handle_id: Option<&str>) -> (res: Result<
        RuntimeHandleProjection,
        RuntimeValidationFailure,
    >)
        requires
            self.wf(),
        ensures
            match (self.resolved(tool_session_id, raw_view(raw_handle_id)), res) {
                (Ok(key), Ok(projection)) => self.projects(projection, raw_view(raw_handle_id)->0, key),
                (Err(expected), Err(failure)) => expected == failure,
                _ => false,
            },
    {
        match self.resolve(tool_session_id, raw_handle_id) {
            Ok(key) => match (self.records.get(&key), raw_handle_id) {
                (Some(record), Some(raw)) => Ok(self.project(raw.to_owned(), record)),
                _ => Err(RuntimeValidationFailure::OwnerClosed),
            },
            Err(failure) => Err(failure),
        }
    }

    /// The handles of a session that still stand for something.
    pub fn current_handle_projections(&self, tool_session_id: u64) -> (res: Vec<RuntimeHandleProjection>)
        requires
            self.wf(),
        ensures
            forall|i: int|
                0 <= i < res@.len() ==> self.listed(tool_session_id, #[trigger] res@[i]),
            forall|i: int, j: int|
                0 <= i < j < res@.len() ==> (#[trigger] res@[i]).handle_id@ != (#[trigger] res@[j]).handle_id@,
            forall|id: Seq<char>|
                (#[trigger] self.resolved(tool_session_id, Some(id))) is Ok ==> exists|i: int|
                    0 <= i < res@.len() && (#[trigger] res@[i]).handle_id@ == id,
    {
        let ids = self.leases.keys();
        let mut res: Vec<RuntimeHandleProjection> = Vec::new();
        let ghost mut from: Seq<int> = Seq::empty();
        let mut at: usize = 0;
        while at < ids.len()
            invariant
                self.wf(),
                at <= ids.len(),
                from.len() == res@.len(),
                forall|i: int, j: int|
                    0 <= i < j < ids@.len() ==> (#[trigger] ids@[i])@ != (#[trigger] ids@[j])@,
                forall|i: int|
                    0 <= i < res@.len() ==> self.listed(tool_session_id, #[trigger] res@[i]),
                forall|i: int|
                    0 <= i < res@.len() ==> 0 <= #[trigger] from[i] < at && res@[i].handle_id@ == ids@[from[i]]@,
                forall|i: int, j: int|
                    0 <= i < j < res@.len() ==> (#[trigger] from[i]) < (#[trigger] from[j]),
                forall|k: int|
                    0 <= k < at && self.resolved(tool_session_id, Some((#[trigger] ids@[k])@)) is Ok ==> exists|i: int|
                        0 <= i < res@.len() && (#[trigger] res@[i]).handle_id@ == ids@[k]@,
            decreases ids.len() - at,
        {
            let ghost before = res@;
            let ghost came = from;
            match self.validate_state_handle(tool_session_id, Some(ids[at].as_str())) {
                Ok(projection) => {
                    proof {
                        assert(self.listed(tool_session_id, projection));
                        from = from.push(at as int);
                    }
                    res.push(projection);
                    assert(res@[before.len() as int].handle_id@ == ids@[at as int]@);
                },
                Err(_) => {},
            }
            assert forall|k: int|
                0 <= k < at + 1 && self.resolved(tool_session_id, Some((#[trigger] ids@[k])@)) is Ok implies exists|i: int|
                    0 <= i < res@.len() && (#[trigger] res@[i]).handle_id@ == ids@[k]@ by {
                if k < at {
                    let i = choose|i: int| 0 <= i < before.len() && (#[trigger] before[i]).handle_id@ == ids@[k]@;
                    assert(res@[i] == before[i]);
                }
            }
            at += 1;
        }
        proof {
            assert forall|i: int, j: int|
                0 <= i < j < res@.len() implies (#[trigger] res@[i]).handle_id@ != (#[trigger] res@[j]).handle_id@ by {
                assert(from[i] < from[j]);
            }
            assert forall|id: Seq<char>|
                (#[trigger] self.resolved(tool_session_id, Some(id))) is Ok implies exists|i: int|
                    0 <= i < res@.len() && (#[trigger] res@[i]).handle_id@ == id by {
                assert(self.leases@.dom().contains(id));
                let k = choose|k: int| 0 <= k < ids@.len() && (#[trigger] ids@[k]).id() == id;
                assert(self.resolved(tool_session_id, Some(ids@[k]@)) is Ok);
            }
        }
        res
    }

    /// A handle of a session that still stands for something, as a model may know it.
    pub open spec fn listed(self, session: u64, projection: RuntimeHandleProjection) -> bool {
        &&& self.resolved(session, Some(projection.handle_id@)) is Ok
        &&& self.projects(
            projection,
            projection.handle_id@,
            self.resolved(session, Some(projection.handle_id@))->Ok_0,
        )
    }

    /// The owner that a handle stands for, to be handed on to another agent.
    pub fn delegated_agent_target(&self, session: u64, handle: &str) -> (res: Result<
        (u64, String),
        RuntimeValidationFailure,
    >)
        requires
            self.wf(),
        ensures
            match (self.resolved(session, Some(handle@)), res) {
                (Ok(key), Ok((target, label))) => target == key && label == self.records@[key].label,
                (Err(expected), Err(failure)) => expected == failure,
                _ => false,
            },
    {
        match self.resolve(session, Some(handle)) {
            Ok(key) => match self.records.get(&key) {
                Some(record) => Ok((key, record.label.clone())),
                None => Err(RuntimeValidationFailure::OwnerClosed),
            },
            Err(failure) => Err(failure),
        }
    }
}

pub open spec fn raw_view(raw: Option<&str>) -> Option<Seq<char>> {
    match raw {
        Some(raw) => Some(raw@),
        None => None,
    }
}

/// What a request for a handle led to.
pub open spec fn issue_answered(
    before: AiRuntimeContextEntity,
    after: AiRuntimeContextEntity,
    session: u64,
    name: OwnerName,
    res: Result<RuntimeHandleProjection, RuntimeContextError>,
) -> bool {
    match res {
        Ok(projection) => {
            &&& before.issue_error(session, name) is None
            &&& after.issued(before, session, name)
            &&& after.projects(projection, handle_text(after.serial), before.names@[name])
        },
        Err(error) => before.issue_error(session, name) == Some(error) && after == before,
    }
}

/// A handle is worthless outside the session in which it was given out.
pub proof fn law_handles_stay_in_their_session(context: AiRuntimeContextEntity, id: Seq<char>, session: u64)
    requires
        context.leases@.dom().contains(id) ==> context.leases@[id].session != session,
    ensures
        context.resolved(session, Some(id)) is Err,
{
}

/// A handle that was just given out stands for the owner it was asked for, and disturbs no other.
pub proof fn law_given_handles_are_good(
    before: AiRuntimeContextEntity,
    after: AiRuntimeContextEntity,
    session: u64,
    name: OwnerName,
    id: Seq<char>,
)
    requires
        before.wf(),
        before.issue_error(session, name) is None,
        after.issued(before, session, name),
    ensures
        after.resolved(session, Some(handle_text(after.serial))) == Result::<u64, RuntimeValidationFailure>::Ok(
            before.names@[name],
        ),
        before.resolved(session, Some(id)) is Ok ==> after.resolved(session, Some(id)) == before.resolved(
            session,
            Some(id),
        ),
{
    lemma_is_handle_text(after.serial);
    assert(before.names@.dom().contains(name));
    if before.resolved(session, Some(id)) is Ok {
        assert(before.leases@.dom().contains(id));
        if id == handle_text(after.serial) {
            lemma_handle_text(before.leases@[id].number, after.serial);
        }
    }
}

/// When an owner goes, the handles to it are worthless, and those to other owners stay good.
pub proof fn law_handles_end_with_their_owner(
    before: AiRuntimeContextEntity,
    after: AiRuntimeContextEntity,
    which: Which,
    session: u64,
    id: Seq<char>,
)
    requires
        before.wf(),
        after.without(before, which),
        before.resolved(session, Some(id)) is Ok,
    ensures
        if which.takes(before.records@[before.resolved(session, Some(id))->Ok_0]) {
            after.resolved(session, Some(id)) == Result::<u64, RuntimeValidationFailure>::Err(
                RuntimeValidationFailure::OwnerClosed,
            )
        } else {
            after.resolved(session, Some(id)) == before.resolved(session, Some(id))
        },
{
}

/// A handle to an owner that is gone stays worthless, even when something is announced under the
/// same name again: it never comes to stand for what took the owner's place.
pub proof fn law_handles_never_move_to_another_owner(
    before: AiRuntimeContextEntity,
    after: AiRuntimeContextEntity,
    name: OwnerName,
    backing: BackingView,
    label: String,
    resource_ref: Option<String>,
    session: u64,
    id: Seq<char>,
)
    requires
        before.wf(),
        after.announced(before, name, backing, label, resource_ref),
        before.resolved(session, Some(id)) == Result::<u64, RuntimeValidationFailure>::Err(
            RuntimeValidationFailure::OwnerClosed,
        ),
    ensures
        after.resolved(session, Some(id)) == before.resolved(session, Some(id)),
{
    assert(before.leases@.dom().contains(id));
}

/// When something else stands behind an owner its old handles are refused as replaced. Handles to
/// others stay as they were, and so do all handles when only the data about the owner changed.
pub proof fn law_replaced_owners_refuse_old_handles(
    before: AiRuntimeContextEntity,
    after: AiRuntimeContextEntity,
    name: OwnerName,
    backing: BackingView,
    label: String,
    resource_ref: Option<String>,
    session: u64,
    id: Seq<char>,
)
    requires
        before.wf(),
        after.announced(before, name, backing, label, resource_ref),
        before.names@.dom().contains(name),
        before.records@[before.names@[name]].generation < u64::MAX,
        before.resolved(session, Some(id)) is Ok,
    ensures
        after.resolved(session, Some(id)) == if before.resolved(session, Some(id))->Ok_0
            == before.names@[name] && before.records@[before.names@[name]].backing@ != backing {
            Err(RuntimeValidationFailure::OwnerReplaced)
        } else {
            before.resolved(session, Some(id))
        },
{
}

/// Limiting a session once more never gives it back an owner.
pub proof fn law_limits_only_narrow(
    before: AiRuntimeContextEntity,
    after: AiRuntimeContextEntity,
    session: u64,
    targets: Seq<u64>,
    key: u64,
    other: u64,
)
    requires
        after.limited(before, session, targets),
        other != session,
    ensures
        after.permits(session, key) ==> before.permits(session, key) && targets.contains(key),
        after.permits(other, key) == before.permits(other, key),
{
}

/// Taking a node's connection down leaves terminals alone.
pub proof fn law_terminals_outlive_nodes(
    before: AiRuntimeContextEntity,
    after: AiRuntimeContextEntity,
    node: Seq<char>,
    terminal: u64,
)
    requires
        before.wf(),
        after.without(before, Which::OnNode(node)),
        before.names@.dom().contains(OwnerName::Terminal(terminal)),
    ensures
        after.names@.dom().contains(OwnerName::Terminal(terminal)),
        after.names@[OwnerName::Terminal(terminal)] == before.names@[OwnerName::Terminal(terminal)],
        !after.names@.dom().contains(OwnerName::Node(node)),
        !after.names@.dom().contains(OwnerName::Sftp(node)),
{
}

/// After a shutdown nothing is registered, no session is active for any run, and no handle is good in
/// any session. That stays so when a session is begun afterwards, and after another shutdown.
pub proof fn law_shutdown_is_final(
    before: AiRuntimeContextEntity,
    after: AiRuntimeContextEntity,
    finished: AiRuntimeContextEntity,
    begun: AiRuntimeContextEntity,
    again: AiRuntimeContextEntity,
    begun_for: u64,
    run: u64,
    session: u64,
    raw: Option<Seq<char>>,
)
    requires
        after.shut_down(before),
        finished.session_finished(after, begun_for),
        begun.session_opened(finished, begun_for),
        again.shut_down(begun),
    ensures
        !after.session_active(run, session),
        !begun.session_active(run, session),
        !again.session_active(run, session),
        after.resolved(session, raw) is Err,
        begun.resolved(session, raw) is Err,
        again.resolved(session, raw) is Err,
        after.records@ == Map::<u64, OwnerRecord>::empty(),
        after.names@ == Map::<OwnerName, u64>::empty(),
        begun.names@ == Map::<OwnerName, u64>::empty(),
        again.names@ == Map::<OwnerName, u64>::empty(),
{
}

/// New data about the connection of a node leaves every handle to the node good. Another connection
/// makes them all worthless. Handles to anything else, such as another node or a terminal, stay as
/// they were either way.
pub proof fn law_handles_follow_the_connection_of_a_node(
    before: AiRuntimeContextEntity,
    after: AiRuntimeContextEntity,
    node: Seq<char>,
    connection: Seq<char>,
    label: String,
    resource_ref: Option<String>,
    session: u64,
    id: Seq<char>,
)
    requires
        before.wf(),
        after.announced(
            before,
            OwnerName::Node(node),
            BackingView::Connection(connection),
            label,
            resource_ref,
        ),
        before.resolved(session, Some(id)) is Ok,
        before.records@[before.resolved(session, Some(id))->Ok_0].generation < u64::MAX,
    ensures
        ({
            let key = before.resolved(session, Some(id))->Ok_0;
            let known = before.records@[key];
            if known.name.id() == OwnerName::Node(node) && known.backing@ != BackingView::Connection(connection) {
                after.resolved(session, Some(id)) == Result::<u64, RuntimeValidationFailure>::Err(
                    RuntimeValidationFailure::OwnerReplaced,
                )
            } else {
                after.resolved(session, Some(id)) == before.resolved(session, Some(id))
            }
        }),
{
    let key = before.resolved(session, Some(id))->Ok_0;
    assert(before.records@.dom().contains(key));
}

/// A session that was limited to some owners is given handles to those alone, and takes no other
/// handle: not one that it was given before, and not one of another session. Limiting it again to
/// more owners gives none of them back. The other sessions, such as the one that hands the work on,
/// stay active and keep their handles.
pub proof fn law_limited_sessions_reach_their_targets_alone(
    before: AiRuntimeContextEntity,
    once: AiRuntimeContextEntity,
    twice: AiRuntimeContextEntity,
    child: u64,
    parent: u64,
    run: u64,
    targets: Seq<u64>,
    more: Seq<u64>,
    name: OwnerName,
    id: Seq<char>,
)
    requires
        before.wf(),
        parent != child,
        before.sessions@.dom().contains(child),
        before.names@.dom().contains(name),
        once.limited(before, child, targets),
        twice.limited(once, child, more),
    ensures
        before.issue_error(child, name) is None && targets.contains(before.names@[name])
            ==> once.issue_error(child, name) is None,
        !targets.contains(before.names@[name]) ==> {
            &&& !once.permits(child, before.names@[name])
            &&& !twice.permits(child, before.names@[name])
            &&& once.issue_error(child, name) == Some(RuntimeContextError::NotPermitted)
            &&& twice.issue_error(child, name) == Some(RuntimeContextError::NotPermitted)
        },
        once.resolved(child, Some(id)) is Ok ==> targets.contains(once.resolved(child, Some(id))->Ok_0),
        twice.resolved(child, Some(id)) is Ok ==> {
            &&& targets.contains(twice.resolved(child, Some(id))->Ok_0)
            &&& once.resolved(child, Some(id)) == twice.resolved(child, Some(id))
        },
        before.resolved(parent, Some(id)) is Ok ==> {
            &&& once.resolved(child, Some(id)) is Err
            &&& twice.resolved(child, Some(id)) is Err
        },
        once.resolved(parent, Some(id)) == before.resolved(parent, Some(id)),
        twice.resolved(parent, Some(id)) == before.resolved(parent, Some(id)),
        before.session_active(run, parent) ==> once.session_active(run, parent)
            && twice.session_active(run, parent),
{
    let key = before.names@[name];
    assert(once.permits(child, key) == (before.permits(child, key) && targets.contains(key)));
    assert(twice.permits(child, key) == (once.permits(child, key) && more.contains(key)));
}

} // verus!
