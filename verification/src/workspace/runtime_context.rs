//! What the runs of the assistant may act on. Every run has a session of its own; a handle given
//! out in one session is worthless in another, and outlives neither its session nor its owner.

use vstd::prelude::*;

use crate::numerals::is_digit;
use crate::table::{Key, Table};
use crate::text;
use crate::workspace::runtime_owners::{
    Backing, BackingView, HandleLease, OwnerName, OwnerRecord, RuntimeOwnerId,
};

verus! {

/// A session in which handles are given out, and the owners it is limited to.
pub struct ToolSession {
    pub limits: Option<Vec<u64>>,
}

/// The ids of owners and sessions, and the numbers of handles, come from one count, so that none is
/// ever used again.
pub struct AiRuntimeContextEntity {
    pub serial: u64,
    pub names: Table<RuntimeOwnerId, u64>,
    pub records: Table<u64, OwnerRecord>,
    pub sessions: Table<u64, ToolSession>,
    /// The session of each run.
    pub tool_sessions: Table<u64, u64>,
    pub leases: Table<String, HandleLease>,
    pub accepting_broker_requests: bool,
}

/// How a handle is written.
pub open spec fn handle_text(number: u64) -> Seq<char> {
    "runtime-"@ + text::decimal(number as nat)
}

/// Whether a text is written as handles are.
pub open spec fn is_handle_text(id: Seq<char>) -> bool {
    let prefix = "runtime-"@;
    &&& id.len() > prefix.len()
    &&& id.take(prefix.len() as int) == prefix
    &&& forall|i: int| prefix.len() <= i < id.len() ==> is_digit(#[trigger] id[i])
}

proof fn lemma_decimal_digits(n: nat)
    ensures
        text::decimal(n).len() > 0,
        forall|i: int| 0 <= i < text::decimal(n).len() ==> is_digit(#[trigger] text::decimal(n)[i]),
    decreases n,
{
    if n >= 10 {
        lemma_decimal_digits(n / 10);
    }
}

/// Handles are written as handles are.
pub proof fn lemma_is_handle_text(number: u64)
    ensures
        is_handle_text(handle_text(number)),
{
    let prefix = "runtime-"@;
    let id = handle_text(number);
    lemma_decimal_digits(number as nat);
    assert(id.take(prefix.len() as int) =~= prefix);
    assert forall|i: int| prefix.len() <= i < id.len() implies is_digit(#[trigger] id[i]) by {
        assert(id[i] == text::decimal(number as nat)[i - prefix.len()]);
    }
}

/// Whether a text is written as handles are.
pub fn reads_as_handle(raw: &str) -> (res: bool)
    ensures
        res == is_handle_text(raw@),
{
    let prefix = text::chars_of("runtime-");
    let chars = text::chars_of(raw);
    if chars.len() <= prefix.len() {
        return false;
    }
    let mut at: usize = 0;
    while at < chars.len()
        invariant
            prefix@ == "runtime-"@,
            chars@ == raw@,
            prefix.len() < chars.len(),
            at <= chars.len(),
            forall|i: int| 0 <= i < at && i < prefix.len() ==> raw@[i] == prefix@[i],
            forall|i: int| prefix.len() <= i < at ==> is_digit(#[trigger] raw@[i]),
        decreases chars.len() - at,
    {
        if at < prefix.len() {
            if chars[at] != prefix[at] {
                assert(raw@.take(prefix.len() as int)[at as int] != prefix@[at as int]);
                return false;
            }
        } else if !('0' <= chars[at] && chars[at] <= '9') {
            assert(!is_digit(raw@[at as int]));
            return false;
        }
        at += 1;
    }
    assert(raw@.take(prefix.len() as int) =~= prefix@);
    true
}

pub proof fn lemma_handle_text(a: u64, b: u64)
    requires
        handle_text(a) == handle_text(b),
    ensures
        a == b,
{
    let prefix = "runtime-"@;
    assert(text::decimal(a as nat) =~= handle_text(a).skip(prefix.len() as int));
    assert(text::decimal(b as nat) =~= handle_text(b).skip(prefix.len() as int));
    text::lemma_decimal_injective(a as nat, b as nat);
}

/// Whether an owner has the backing that its kind calls for.
pub open spec fn well_backed(record: OwnerRecord) -> bool {
    match record.name.id() {
        OwnerName::Node(_) => record.backing@ is Connection,
        OwnerName::Sftp(_) => record.backing@ is Session,
        OwnerName::Ide(_) => record.backing@ is Node,
        _ => record.backing@ is Itself,
    }
}

/// The names and the records of owners belong together.
pub open spec fn names_match(names: Map<OwnerName, u64>, records: Map<u64, OwnerRecord>) -> bool {
    &&& forall|name: OwnerName| #[trigger]
        names.dom().contains(name) ==> records.dom().contains(names[name]) && records[names[name]].name.id()
            == name
    &&& forall|key: u64| #[trigger]
        records.dom().contains(key) ==> names.dom().contains(records[key].name.id())
            && names[records[key].name.id()] == key
}

/// Which owners lose their place.
pub enum Which {
    Named(OwnerName),
    /// A node's connection and what depends on it.
    OnNode(Seq<char>),
    Everything,
}

impl Which {
    pub open spec fn takes(self, record: OwnerRecord) -> bool {
        match self {
            Which::Named(name) => record.name.id() == name,
            Which::OnNode(node) => {
                ||| record.name.id() == OwnerName::Node(node)
                ||| record.name.id() == OwnerName::Sftp(node)
                ||| record.name.id() is Ide && record.backing@ == BackingView::Node(node)
            },
            Which::Everything => true,
        }
    }
}

/// Which owners a caller takes away.
enum Leaving {
    Named(RuntimeOwnerId),
    OnNode(String),
    Everything,
}

impl Leaving {
    spec fn view(self) -> Which {
        match self {
            Leaving::Named(name) => Which::Named(name.id()),
            Leaving::OnNode(node) => Which::OnNode(node@),
            Leaving::Everything => Which::Everything,
        }
    }

    fn takes(&self, record: &OwnerRecord) -> (res: bool)
        ensures
            res == self@.takes(*record),
    {
        match self {
            Leaving::Named(name) => record.name.matches(name),
            Leaving::OnNode(node) => match &record.name {
                RuntimeOwnerId::Node(own) => text::same(own.as_str(), node.as_str()),
                RuntimeOwnerId::Sftp(own) => text::same(own.as_str(), node.as_str()),
                RuntimeOwnerId::Ide(_) => match &record.backing {
                    Backing::Node(own) => text::same(own.as_str(), node.as_str()),
                    _ => false,
                },
                _ => false,
            },
            Leaving::Everything => true,
        }
    }
}

pub open spec fn left_records(records: Map<u64, OwnerRecord>, which: Which) -> Map<u64, OwnerRecord> {
    records.restrict(Set::new(|key: u64| records.dom().contains(key) && !which.takes(records[key])))
}

pub open spec fn left_names(names: Map<OwnerName, u64>, records: Map<u64, OwnerRecord>, which: Which) -> Map<OwnerName, u64> {
    names.restrict(
        Set::new(|name: OwnerName| names.dom().contains(name) && !which.takes(records[names[name]])),
    )
}

impl AiRuntimeContextEntity {
    pub open spec fn wf(self) -> bool {
        &&& self.names.wf()
        &&& self.records.wf()
        &&& self.sessions.wf()
        &&& self.tool_sessions.wf()
        &&& self.leases.wf()
        &&& names_match(self.names@, self.records@)
        &&& self.backed()
        &&& forall|key: u64| #[trigger] self.records@.dom().contains(key) ==> key <= self.serial
        &&& forall|session: u64| #[trigger]
            self.sessions@.dom().contains(session) ==> session <= self.serial
        &&& forall|run: u64| #[trigger]
            self.tool_sessions@.dom().contains(run) ==> self.sessions@.dom().contains(
                self.tool_sessions@[run],
            )
        &&& forall|a: u64, b: u64|
            #![trigger self.tool_sessions@.dom().contains(a), self.tool_sessions@.dom().contains(b)]
            self.tool_sessions@.dom().contains(a) && self.tool_sessions@.dom().contains(b)
                && self.tool_sessions@[a] == self.tool_sessions@[b] ==> a == b
        &&& forall|id: Seq<char>| #[trigger]
            self.leases@.dom().contains(id) ==> {
                &&& id == handle_text(self.leases@[id].number)
                &&& self.leases@[id].number <= self.serial
                &&& self.leases@[id].owner <= self.serial
                &&& self.leases@[id].session <= self.serial
            }
    }

    /// Every owner has the backing that its kind calls for.
    pub open spec fn backed(self) -> bool {
        forall|key: u64| #[trigger] self.records@.dom().contains(key) ==> well_backed(self.records@[key])
    }

    /// Only the local shell can be acted on.
    pub open spec fn is_new(self) -> bool {
        &&& self.serial == 1
        &&& self.accepting_broker_requests
        &&& self.names@ == Map::<OwnerName, u64>::empty().insert(OwnerName::LocalShell, 1)
        &&& self.records@.dom() == set![1u64]
        &&& self.is_registered(OwnerName::LocalShell, 1, BackingView::Itself)
        &&& self.records@[1].label@ == "Local shell service"@
        &&& text::opt_view(self.records@[1].resource_ref) == Some("default"@)
        &&& self.sessions@ == Map::<u64, ToolSession>::empty()
        &&& self.tool_sessions@ == Map::<u64, u64>::empty()
        &&& self.leases@ == Map::<Seq<char>, HandleLease>::empty()
    }

    /// A context in which only the local shell can be acted on.
    pub fn new() -> (res: AiRuntimeContextEntity)
        ensures
            res.wf(),
            res.is_new(),
    {
        let mut names: Table<RuntimeOwnerId, u64> = Table::new();
        names.insert(RuntimeOwnerId::LocalShell, 1);
        let mut records: Table<u64, OwnerRecord> = Table::new();
        records.insert(
            1,
            OwnerRecord {
                name: RuntimeOwnerId::LocalShell,
                generation: 1,
                backing: Backing::Itself,
                label: "Local shell service".to_owned(),
                resource_ref: Some("default".to_owned()),
            },
        );
        assert(records@.dom() =~= set![1u64]);
        AiRuntimeContextEntity {
            serial: 1,
            names,
            records,
            sessions: Table::new(),
            tool_sessions: Table::new(),
            leases: Table::new(),
            accepting_broker_requests: true,
        }
    }

    /// An owner is registered under a name.
    pub open spec fn is_registered(self, name: OwnerName, generation: u64, backing: BackingView) -> bool {
        &&& self.names@.dom().contains(name)
        &&& self.records@[self.names@[name]].generation == generation
        &&& self.records@[self.names@[name]].backing@ == backing
    }

    /// The generation of an owner that is announced again.
    pub open spec fn next_generation(generation: u64) -> u64 {
        if generation == u64::MAX {
            generation
        } else {
            (generation + 1) as u64
        }
    }

    /// An owner was announced: a new one gets a key that was never used, a known one keeps its key,
    /// and its generation too unless something else stands behind it now.
    pub open spec fn announced(
        self,
        before: AiRuntimeContextEntity,
        name: OwnerName,
        backing: BackingView,
        label: String,
        resource_ref: Option<String>,
    ) -> bool {
        let key = self.names@[name];
        &&& self == (AiRuntimeContextEntity {
            serial: self.serial,
            names: self.names,
            records: self.records,
            ..before
        })
        &&& if before.names@.dom().contains(name) {
            let known = before.records@[before.names@[name]];
            &&& self.serial == before.serial
            &&& self.names == before.names
            &&& self.records@[key].generation == if known.backing@ == backing {
                known.generation
            } else {
                Self::next_generation(known.generation)
            }
        } else {
            &&& self.serial == before.serial + 1
            &&& self.names@ == before.names@.insert(name, self.serial)
            &&& self.records@[key].generation == 1
        }
        &&& self.records@ == before.records@.insert(key, self.records@[key])
        &&& self.records@[key].name.id() == name
        &&& self.records@[key].backing@ == backing
        &&& self.records@[key].label == label
        &&& self.records@[key].resource_ref == resource_ref
    }

    fn announce(&mut self, name: RuntimeOwnerId, backing: Backing, label: String, resource_ref: Option<String>)
        requires
            old(self).wf(),
            old(self).serial < u64::MAX,
            well_backed(OwnerRecord { name, generation: 1, backing, label, resource_ref }),
        ensures
            final(self).wf(),
            final(self).announced(*old(self), name.id(), backing@, label, resource_ref),
    {
        let known: Option<u64> = match self.names.get(&name) {
            Some(key) => Some(*key),
            None => None,
        };
        match known {
            Some(key) => {
                let generation: u64 = match self.records.get(&key) {
                    Some(record) => {
                        if record.backing.same(&backing) || record.generation == u64::MAX {
                            record.generation
                        } else {
                            record.generation + 1
                        }
                    },
                    None => 1,
                };
                self.records.insert(key, OwnerRecord { name, generation, backing, label, resource_ref });
            },
            None => {
                self.serial = self.serial + 1;
                let key: u64 = self.serial;
                self.names.insert(name.duplicate(), key);
                self.records.insert(key, OwnerRecord { name, generation: 1, backing, label, resource_ref });
            },
        }
    }

    /// Announces a terminal session. Moving it to another tab or window announces it again.
    pub fn register_terminal_session(&mut self, session_id: u64, label: String)
        requires
            old(self).wf(),
            old(self).serial < u64::MAX,
        ensures
            final(self).wf(),
            final(self).announced(
                *old(self),
                OwnerName::Terminal(session_id),
                BackingView::Itself,
                label,
                None,
            ),
    {
        self.announce(RuntimeOwnerId::Terminal(session_id), Backing::Itself, label, None);
    }

    /// Announces the connection to a node. New data about the same connection keeps its generation.
    pub fn register_node_connection(
        &mut self,
        node_id: String,
        connection_id: String,
        label: String,
        resource_ref: Option<String>,
    )
        requires
            old(self).wf(),
            old(self).serial < u64::MAX,
        ensures
            final(self).wf(),
            final(self).announced(
                *old(self),
                OwnerName::Node(node_id@),
                BackingView::Connection(connection_id@),
                label,
                resource_ref,
            ),
    {
        self.announce(
            RuntimeOwnerId::Node(node_id),
            Backing::Connection(connection_id),
            label,
            resource_ref,
        );
    }

    /// Announces a file session, which can be made anew without its connection.
    pub fn register_sftp_session(
        &mut self,
        node_id: String,
        connection_id: String,
        session_generation: u64,
        label: String,
        resource_ref: Option<String>,
    )
        requires
            old(self).wf(),
            old(self).serial < u64::MAX,
        ensures
            final(self).wf(),
            final(self).announced(
                *old(self),
                OwnerName::Sftp(node_id@),
                BackingView::Session { connection: connection_id@, generation: session_generation },
                label,
                resource_ref,
            ),
    {
        self.announce(
            RuntimeOwnerId::Sftp(node_id),
            Backing::Session { connection: connection_id, generation: session_generation },
            label,
            resource_ref,
        );
    }

    /// Announces the editor in a tab.
    pub fn register_ide_surface(
        &mut self,
        tab_id: u64,
        node_id: String,
        label: String,
        resource_ref: Option<String>,
    )
        requires
            old(self).wf(),
            old(self).serial < u64::MAX,
        ensures
            final(self).wf(),
            final(self).announced(
                *old(self),
                OwnerName::Ide(tab_id),
                BackingView::Node(node_id@),
                label,
                resource_ref,
            ),
    {
        self.announce(RuntimeOwnerId::Ide(tab_id), Backing::Node(node_id), label, resource_ref);
    }

    /// Announces a mounted tab.
    pub fn register_app_surface(&mut self, tab_id: u64, label: String, resource_ref: Option<String>)
        requires
            old(self).wf(),
            old(self).serial < u64::MAX,
        ensures
            final(self).wf(),
            final(self).announced(
                *old(self),
                OwnerName::Surface(tab_id),
                BackingView::Itself,
                label,
                resource_ref,
            ),
    {
        self.announce(RuntimeOwnerId::Surface(tab_id), Backing::Itself, label, resource_ref);
    }

    /// Some owners are gone; nothing else differs.
    pub open spec fn without(self, before: AiRuntimeContextEntity, which: Which) -> bool {
        &&& self == (AiRuntimeContextEntity { names: self.names, records: self.records, ..before })
        &&& self.records@ == left_records(before.records@, which)
        &&& self.names@ == left_names(before.names@, before.records@, which)
    }

    fn take_away(&mut self, leaving: Leaving)
        requires
            old(self).wf(),
        ensures
            final(self).wf(),
            final(self).without(*old(self), leaving@),
    {
        let records = &self.records;
        let chosen = &leaving;
        let keep_name = |name: &RuntimeOwnerId, key: &u64| -> (kept: bool)
            ensures
                kept == !(records@.dom().contains(*key) && chosen@.takes(records@[*key])),
            {
                match records.get(key) {
                    Some(record) => !chosen.takes(record),
                    None => true,
                }
            };
        self.names.retain(
            keep_name,
            Ghost(
                |name: OwnerName, key: u64|
                    !(old(self).records@.dom().contains(key) && leaving@.takes(old(self).records@[key])),
            ),
        );
        assert(self.names@ =~= left_names(old(self).names@, old(self).records@, leaving@));
        let keep_record = |key: &u64, record: &OwnerRecord| -> (kept: bool)
            ensures
                kept == !chosen@.takes(*record),
            { !chosen.takes(record) };
        self.records.retain(
            keep_record,
            Ghost(|key: u64, record: OwnerRecord| !leaving@.takes(record)),
        );
        assert(self.records@ =~= left_records(old(self).records@, leaving@));
    }

    /// A terminal session ended.
    pub fn revoke_terminal_session(&mut self, session_id: u64)
        requires
            old(self).wf(),
        ensures
            final(self).wf(),
            final(self).without(*old(self), Which::Named(OwnerName::Terminal(session_id))),
    {
        self.take_away(Leaving::Named(RuntimeOwnerId::Terminal(session_id)));
    }

    /// The connection to a node went down, and with it its file session and its editors. Terminals
    /// stay.
    pub fn revoke_node_connection(&mut self, node_id: &str)
        requires
            old(self).wf(),
        ensures
            final(self).wf(),
            final(self).without(*old(self), Which::OnNode(node_id@)),
    {
        self.take_away(Leaving::OnNode(node_id.to_owned()));
    }

    /// A file session was reset. Its node and its terminals stay.
    pub fn revoke_sftp_session(&mut self, node_id: &str)
        requires
            old(self).wf(),
        ensures
            final(self).wf(),
            final(self).without(*old(self), Which::Named(OwnerName::Sftp(node_id@))),
    {
        self.take_away(Leaving::Named(RuntimeOwnerId::Sftp(node_id.to_owned())));
    }

    /// An editor was closed.
    pub fn revoke_ide_surface(&mut self, tab_id: u64)
        requires
            old(self).wf(),
        ensures
            final(self).wf(),
            final(self).without(*old(self), Which::Named(OwnerName::Ide(tab_id))),
    {
        self.take_away(Leaving::Named(RuntimeOwnerId::Ide(tab_id)));
    }

    /// A tab was closed.
    pub fn revoke_app_surface(&mut self, tab_id: u64)
        requires
            old(self).wf(),
        ensures
            final(self).wf(),
            final(self).without(*old(self), Which::Named(OwnerName::Surface(tab_id))),
    {
        self.take_away(Leaving::Named(RuntimeOwnerId::Surface(tab_id)));
    }

    /// Nothing can be acted on any more.
    pub fn revoke_registered_owner_projections(&mut self)
        requires
            old(self).wf(),
        ensures
            final(self).wf(),
            *final(self) == (AiRuntimeContextEntity {
                names: final(self).names,
                records: final(self).records,
                ..*old(self)
            }),
            final(self).records@ == Map::<u64, OwnerRecord>::empty(),
            final(self).names@ == Map::<OwnerName, u64>::empty(),
    {
        self.take_away(Leaving::Everything);
        assert(self.records@ =~= Map::<u64, OwnerRecord>::empty());
        assert(self.names@ =~= Map::<OwnerName, u64>::empty());
    }

    /// What is left of the leases when sessions end.
    pub open spec fn leases_outside(leases: Map<Seq<char>, HandleLease>, session: u64) -> Map<Seq<char>, HandleLease> {
        leases.restrict(
            Set::new(|id: Seq<char>| leases.dom().contains(id) && leases[id].session != session),
        )
    }

    /// The session of a run ended, and its handles with it.
    pub open spec fn session_finished(self, before: AiRuntimeContextEntity, run: u64) -> bool {
        if before.tool_sessions@.dom().contains(run) {
            let session = before.tool_sessions@[run];
            &&& self == (AiRuntimeContextEntity {
                tool_sessions: self.tool_sessions,
                sessions: self.sessions,
                leases: self.leases,
                ..before
            })
            &&& self.tool_sessions@ == before.tool_sessions@.remove(run)
            &&& self.sessions@ == before.sessions@.remove(session)
            &&& self.leases@ == Self::leases_outside(before.leases@, session)
        } else {
            self.same_as(before)
        }
    }

    /// Nothing differs.
    pub open spec fn same_as(self, before: AiRuntimeContextEntity) -> bool {
        &&& self == (AiRuntimeContextEntity { tool_sessions: self.tool_sessions, ..before })
        &&& self.tool_sessions@ == before.tool_sessions@
    }

    pub fn finish_tool_session(&mut self, stream_generation: u64)
        requires
            old(self).wf(),
        ensures
            final(self).wf(),
            final(self).session_finished(*old(self), stream_generation),
    {
        let ghost before = *self;
        match self.tool_sessions.remove(&stream_generation) {
            Some(session) => {
                self.sessions.remove(&session);
                let keep = |id: &String, lease: &HandleLease| -> (kept: bool)
                    ensures
                        kept == (lease.session != session),
                    { lease.session != session };
                self.leases.retain(keep, Ghost(|id: Seq<char>, lease: HandleLease| lease.session != session));
                assert(self.leases@ =~= Self::leases_outside(before.leases@, session));
                assert forall|run: u64| #[trigger] self.tool_sessions@.dom().contains(run) implies self.sessions@.dom().contains(
                    self.tool_sessions@[run],
                ) by {
                    assert(before.tool_sessions@.dom().contains(run));
                    assert(before.tool_sessions@.dom().contains(stream_generation));
                }
                assert forall|a: u64, b: u64|
                    #![trigger self.tool_sessions@.dom().contains(a), self.tool_sessions@.dom().contains(b)]
                    self.tool_sessions@.dom().contains(a) && self.tool_sessions@.dom().contains(b)
                        && self.tool_sessions@[a] == self.tool_sessions@[b] implies a == b by {
                    assert(before.tool_sessions@.dom().contains(a));
                    assert(before.tool_sessions@.dom().contains(b));
                }
            },
            None => {
                assert(self.tool_sessions@ =~= before.tool_sessions@);
            },
        }
    }

    /// A session was opened for a run.
    pub open spec fn session_opened(self, before: AiRuntimeContextEntity, run: u64) -> bool {
        &&& self == (AiRuntimeContextEntity {
            serial: self.serial,
            sessions: self.sessions,
            tool_sessions: self.tool_sessions,
            ..before
        })
        &&& self.serial == before.serial + 1
        &&& self.tool_sessions@ == before.tool_sessions@.insert(run, self.serial)
        &&& self.sessions@ == before.sessions@.insert(self.serial, ToolSession { limits: None })
    }

    /// Opens a session for a run. The session that the run had before ends; those of other runs go
    /// on.
    pub fn begin_tool_session(&mut self, stream_generation: u64) -> (res: u64)
        requires
            old(self).wf(),
            old(self).serial < u64::MAX,
        ensures
            final(self).wf(),
            res == final(self).serial,
            exists|finished: AiRuntimeContextEntity| #[trigger]
                finished.session_finished(*old(self), stream_generation) && final(self).session_opened(
                    finished,
                    stream_generation,
                ),
    {
        self.finish_tool_session(stream_generation);
        let ghost finished = *self;
        assert(finished.session_finished(*old(self), stream_generation));
        self.serial = self.serial + 1;
        let session: u64 = self.serial;
        self.sessions.insert(session, ToolSession { limits: None });
        self.tool_sessions.insert(stream_generation, session);
        assert forall|a: u64, b: u64|
            #![trigger self.tool_sessions@.dom().contains(a), self.tool_sessions@.dom().contains(b)]
            self.tool_sessions@.dom().contains(a) && self.tool_sessions@.dom().contains(b)
                && self.tool_sessions@[a] == self.tool_sessions@[b] implies a == b by {
            if a != stream_generation {
                assert(finished.tool_sessions@.dom().contains(a));
                assert(finished.sessions@.dom().contains(finished.tool_sessions@[a]));
            }
            if b != stream_generation {
                assert(finished.tool_sessions@.dom().contains(b));
                assert(finished.sessions@.dom().contains(finished.tool_sessions@[b]));
            }
        }
        assert forall|run: u64| #[trigger] self.tool_sessions@.dom().contains(run) implies self.sessions@.dom().contains(
            self.tool_sessions@[run],
        ) by {
            if run != stream_generation {
                assert(finished.tool_sessions@.dom().contains(run));
            }
        }
        session
    }

    /// Whether a session is the one of a run, so that work queued in it may still be done.
    pub open spec fn session_active(self, run: u64, session: u64) -> bool {
        self.accepting_broker_requests && self.tool_sessions@.dom().contains(run)
            && self.tool_sessions@[run] == session
    }

    pub fn is_active_tool_session(&self, stream_generation: u64, tool_session_id: u64) -> (res: bool)
        requires
            self.wf(),
        ensures
            res == self.session_active(stream_generation, tool_session_id),
    {
        if !self.accepting_broker_requests {
            return false;
        }
        match self.tool_sessions.get(&stream_generation) {
            Some(current) => *current == tool_session_id && self.sessions.contains(&tool_session_id),
            None => false,
        }
    }

    /// No session is open, and none is taken for open any more.
    pub open spec fn stopped(self, before: AiRuntimeContextEntity) -> bool {
        &&& self == (AiRuntimeContextEntity {
            accepting_broker_requests: false,
            sessions: self.sessions,
            tool_sessions: self.tool_sessions,
            leases: self.leases,
            ..before
        })
        &&& self.sessions@ == Map::<u64, ToolSession>::empty()
        &&& self.tool_sessions@ == Map::<u64, u64>::empty()
        &&& self.leases@ == Map::<Seq<char>, HandleLease>::empty()
    }

    /// Ends every session, before those who wait for an answer are let go.
    pub fn stop_accepting_and_finish_tool_sessions(&mut self)
        requires
            old(self).wf(),
        ensures
            final(self).wf(),
            old(self).accepting_broker_requests ==> final(self).stopped(*old(self)),
            !old(self).accepting_broker_requests ==> *final(self) == *old(self),
    {
        if !self.accepting_broker_requests {
            return;
        }
        self.accepting_broker_requests = false;
        self.sessions.clear();
        self.tool_sessions.clear();
        self.leases.clear();
    }

    /// Nothing can be acted on, and no session counts as open. What was stopped before keeps the
    /// sessions that were opened since, which are good for nothing.
    pub open spec fn shut_down(self, before: AiRuntimeContextEntity) -> bool {
        &&& !self.accepting_broker_requests
        &&& self.serial == before.serial
        &&& self.records@ == Map::<u64, OwnerRecord>::empty()
        &&& self.names@ == Map::<OwnerName, u64>::empty()
        &&& before.accepting_broker_requests ==> {
            &&& self.sessions@ == Map::<u64, ToolSession>::empty()
            &&& self.tool_sessions@ == Map::<u64, u64>::empty()
            &&& self.leases@ == Map::<Seq<char>, HandleLease>::empty()
        }
        &&& !before.accepting_broker_requests ==> {
            &&& self.sessions == before.sessions
            &&& self.tool_sessions == before.tool_sessions
            &&& self.leases == before.leases
        }
    }

    /// Ends every session, and lets nothing be acted on.
    pub fn shutdown(&mut self)
        requires
            old(self).wf(),
        ensures
            final(self).wf(),
            final(self).shut_down(*old(self)),
    {
        self.stop_accepting_and_finish_tool_sessions();
        self.revoke_registered_owner_projections();
    }
}

/// Opening a session for a run ends the one it had, and no other: work queued by the run before it
/// was replaced is refused, work of other runs goes on.
pub proof fn law_runs_have_sessions_of_their_own(
    before: AiRuntimeContextEntity,
    finished: AiRuntimeContextEntity,
    after: AiRuntimeContextEntity,
    run: u64,
    other: u64,
    session: u64,
)
    requires
        before.wf(),
        finished.session_finished(before, run),
        after.session_opened(finished, run),
        other != run,
    ensures
        before.session_active(run, session) ==> !after.session_active(run, session),
        before.accepting_broker_requests ==> after.session_active(run, after.serial),
        before.session_active(other, session) ==> after.session_active(other, session),
{
    if before.session_active(run, session) {
        assert(before.tool_sessions@.dom().contains(run));
        assert(before.sessions@.dom().contains(session));
    }
}

/// A run whose session was ended cannot do work that it queued before.
pub proof fn law_ended_runs_are_refused(
    before: AiRuntimeContextEntity,
    after: AiRuntimeContextEntity,
    run: u64,
    session: u64,
)
    requires
        after.session_finished(before, run),
    ensures
        !after.session_active(run, session),
{
}

/// Once everything is stopped no session counts as open.
pub proof fn law_late_callers_are_refused(before: AiRuntimeContextEntity, after: AiRuntimeContextEntity, run: u64, session: u64)
    requires
        after.stopped(before),
    ensures
        !after.session_active(run, session),
        !after.accepting_broker_requests,
{
}

} // verus!
