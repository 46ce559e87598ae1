//! What the store sends back.

use vstd::prelude::*;

use crate::ai_state::archives::ArchiveDelivery;
use crate::ai_state::bodies::BodyDelivery;
use crate::ai_state::conversations::page_of;
use crate::ai_state::entity::{
    AiAgentWorkspace, AiHistoryState, AiWorkspaceEntity, Effect, HistoryEffect, HistoryStatus,
    HistoryWriteState,
};
use crate::ai_state::journal::{Changes, RevisionClock};
use crate::ai_state::model::{
    find_conversation, has_conversation, AgentRecord, AiConversation, ConversationHead,
    ConversationState,
};
use crate::ai_state::pages::PageDelivery;
use crate::ai_state::writes_done::StreamBase;
use crate::table::{Key, Table};

verus! {

/// A store that was opened: its newest conversations, the last revision it holds, and what its
/// writer says, where one could be made.
pub struct OpenedStore {
    pub heads: Vec<ConversationHead>,
    pub revision: u64,
    pub writer: Option<HistoryWriteState>,
}

/// Something that the store sent back.
pub enum Delivery {
    Conversations { generation: u64, epoch: u64, archived: bool, heads: Result<Vec<ConversationHead>, ()> },
    Archive(ArchiveDelivery),
    Progress { generation: u64, done: usize, total: usize },
    Initialized { generation: u64, store: Result<OpenedStore, ()> },
    Page(PageDelivery),
    Body(BodyDelivery),
    Agents { generation: u64, conversation: String, records: Result<Vec<AgentRecord>, ()> },
    StreamSave,
    Written { revision: u64, streams: Vec<StreamBase> },
    WriteFailed,
    WriteState(HistoryWriteState),
}

/// The last revision given out once a delivery was taken in: an opened store may be further on.
pub open spec fn clock_after(ai: AiWorkspaceEntity, delivery: Delivery, last: u64) -> u64 {
    match delivery {
        Delivery::Initialized { generation, store: Ok(store) } => if generation
            == ai.history.generation && store.revision > last {
            store.revision
        } else {
            last
        },
        _ => last,
    }
}

/// The last revision given out once the first `done` deliveries were taken in.
pub open spec fn clock_along(steps: Seq<AiWorkspaceEntity>, deliveries: Seq<Delivery>, last: u64, done: int) -> u64
    decreases done,
{
    if done <= 0 {
        last
    } else {
        clock_after(
            steps[done - 1],
            deliveries[done - 1],
            clock_along(steps, deliveries, last, done - 1),
        )
    }
}

proof fn lemma_clock_along(steps: Seq<AiWorkspaceEntity>, next: AiWorkspaceEntity, deliveries: Seq<Delivery>, last: u64, done: int)
    requires
        0 <= done <= steps.len(),
    ensures
        clock_along(steps.push(next), deliveries, last, done) == clock_along(steps, deliveries, last, done),
    decreases done,
{
    if done > 0 {
        lemma_clock_along(steps, next, deliveries, last, done - 1);
    }
}

/// One delivery after the other was taken in, each under a waiter of its own.
pub open spec fn steps_of_drain(steps: Seq<AiWorkspaceEntity>, deliveries: Seq<Delivery>, waiter: u64) -> bool {
    &&& 0 < steps.len() <= deliveries.len() + 1
    &&& forall|i: int|
        #![trigger deliveries[i]]
        0 <= i < steps.len() - 1 ==> steps[i + 1].delivered(
            steps[i],
            deliveries[i],
            (waiter + i) as u64,
        )
}

/// The conversations of a list.
pub open spec fn conversations_of(heads: Seq<ConversationHead>) -> Seq<AiConversation> {
    heads.map_values(|head: ConversationHead| head.conversation)
}

/// The branch of each conversation of a list that is shown.
pub open spec fn branches_of(heads: Seq<ConversationHead>) -> Map<Seq<char>, String>
    decreases heads.len(),
{
    if heads.len() == 0 {
        Map::empty()
    } else {
        branches_of(heads.drop_last()).insert(
            heads.last().conversation.id@,
            heads.last().active_branch,
        )
    }
}

/// The first conversation that is not archived.
pub open spec fn first_current(conversations: Seq<AiConversation>) -> Option<Seq<char>>
    decreases conversations.len(),
{
    if conversations.len() == 0 {
        None
    } else if !conversations[0].archived {
        Some(conversations[0].id@)
    } else {
        first_current(conversations.drop_first())
    }
}

fn find_first_current(conversations: &Vec<AiConversation>) -> (res: Option<String>)
    ensures
        crate::text::opt_view(res) == first_current(conversations@),
{
    let mut at: usize = 0;
    assert(conversations@.skip(0) =~= conversations@);
    while at < conversations.len()
        invariant
            at <= conversations.len(),
            first_current(conversations@) == first_current(conversations@.skip(at as int)),
        decreases conversations.len() - at,
    {
        assert(conversations@.skip(at as int)[0] == conversations@[at as int]);
        if !conversations[at].archived {
            return Some(conversations[at].id.clone());
        }
        assert(conversations@.skip(at as int).drop_first() =~= conversations@.skip(at + 1));
        at = at + 1;
    }
    None
}

/// The runs in memory once those of the store were added. What is in memory may be newer.
pub open spec fn runs_added(map: Map<Seq<char>, AgentRecord>, records: Seq<AgentRecord>) -> Map<Seq<char>, AgentRecord>
    decreases records.len(),
{
    if records.len() == 0 {
        map
    } else {
        let earlier = runs_added(map, records.drop_last());
        let run = records.last().snapshot.run.run_id@;
        if earlier.dom().contains(run) {
            earlier
        } else {
            earlier.insert(run, records.last())
        }
    }
}

/// A run that is in memory stays as it is when the store delivers what it keeps of it.
pub proof fn law_runs_in_memory_win(map: Map<Seq<char>, AgentRecord>, records: Seq<AgentRecord>, run: Seq<char>)
    requires
        map.dom().contains(run),
    ensures
        runs_added(map, records).dom().contains(run),
        runs_added(map, records)[run] == map[run],
    decreases records.len(),
{
    if records.len() > 0 {
        law_runs_in_memory_win(map, records.drop_last(), run);
    }
}

/// Which waiters go on waiting: those of a later revision that still listen.
pub open spec fn still_waiting(waiters: Seq<(u64, u64)>, committed: u64, closed: Seq<u64>) -> Seq<(u64, u64)>
    decreases waiters.len(),
{
    if waiters.len() == 0 {
        Seq::empty()
    } else {
        let earlier = still_waiting(waiters.drop_last(), committed, closed);
        let (version, waiter) = waiters.last();
        if version > committed && !closed.contains(waiter) {
            earlier.push((version, waiter))
        } else {
            earlier
        }
    }
}

/// The answers to the waiters whose revision is on disk.
pub open spec fn answers(waiters: Seq<(u64, u64)>, committed: u64) -> Seq<Effect>
    decreases waiters.len(),
{
    if waiters.len() == 0 {
        Seq::empty()
    } else {
        let earlier = answers(waiters.drop_last(), committed);
        let (version, waiter) = waiters.last();
        if version <= committed {
            earlier.push(Effect::Answer { waiter, committed: true })
        } else {
            earlier
        }
    }
}

/// Every waiter that is told its changes are on disk waited for a revision that is.
pub proof fn law_answers_are_true(waiters: Seq<(u64, u64)>, committed: u64, at: int)
    requires
        0 <= at < answers(waiters, committed).len(),
    ensures
        exists|i: int|
            0 <= i < waiters.len() && (#[trigger] waiters[i]).0 <= committed && answers(
                waiters,
                committed,
            )[at] == (Effect::Answer { waiter: waiters[i].1, committed: true }),
    decreases waiters.len(),
{
    let earlier = answers(waiters.drop_last(), committed);
    if at < earlier.len() {
        law_answers_are_true(waiters.drop_last(), committed, at);
        let i = choose|i: int|
            0 <= i < waiters.drop_last().len() && (#[trigger] waiters.drop_last()[i]).0 <= committed
                && earlier[at] == (Effect::Answer {
                waiter: waiters.drop_last()[i].1,
                committed: true,
            });
        assert(waiters[i] == waiters.drop_last()[i]);
    } else {
        assert(waiters[waiters.len() - 1].0 <= committed);
    }
}

/// Nobody is forgotten: a waiter is told, goes on waiting, or no longer listens.
pub proof fn law_waiters_are_kept(waiters: Seq<(u64, u64)>, committed: u64, closed: Seq<u64>, at: int)
    requires
        0 <= at < waiters.len(),
    ensures
        ({
            let (version, waiter) = waiters[at];
            ||| version <= committed && answers(waiters, committed).contains(
                Effect::Answer { waiter, committed: true },
            )
            ||| still_waiting(waiters, committed, closed).contains((version, waiter))
            ||| version > committed && closed.contains(waiter)
        }),
    decreases waiters.len(),
{
    let (version, waiter) = waiters[at];
    let told = answers(waiters.drop_last(), committed);
    let kept = still_waiting(waiters.drop_last(), committed, closed);
    if at < waiters.len() - 1 {
        assert(waiters.drop_last()[at] == waiters[at]);
        law_waiters_are_kept(waiters.drop_last(), committed, closed, at);
        let answer = Effect::Answer { waiter, committed: true };
        if told.contains(answer) {
            let i = choose|i: int| 0 <= i < told.len() && told[i] == answer;
            assert(answers(waiters, committed)[i] == answer);
        }
        if kept.contains((version, waiter)) {
            let i = choose|i: int| 0 <= i < kept.len() && kept[i] == (version, waiter);
            assert(still_waiting(waiters, committed, closed)[i] == (version, waiter));
        }
    } else if version <= committed {
        assert(answers(waiters, committed)[told.len() as int] == (Effect::Answer {
            waiter,
            committed: true,
        }));
    } else if !closed.contains(waiter) {
        assert(still_waiting(waiters, committed, closed)[kept.len() as int] == (version, waiter));
    }
}

fn lists_waiter(closed: &Vec<u64>, waiter: u64) -> (res: bool)
    ensures
        res == closed@.contains(waiter),
{
    let mut at: usize = 0;
    while at < closed.len()
        invariant
            at <= closed.len(),
            forall|i: int| 0 <= i < at ==> closed@[i] != waiter,
        decreases closed.len() - at,
    {
        if closed[at] == waiter {
            return true;
        }
        at = at + 1;
    }
    false
}

impl AiWorkspaceEntity {
    /// Opens the store anew; what an earlier attempt delivers is too old.
    pub fn initialize_history(&mut self)
        requires
            old(self).wf(),
            old(self).history.generation < u64::MAX,
        ensures
            final(self).wf(),
            *final(self) == (AiWorkspaceEntity {
                history: AiHistoryState {
                    generation: (old(self).history.generation + 1) as u64,
                    load_running: true,
                    status: HistoryStatus::Loading,
                    progress: None,
                    effects: final(self).history.effects,
                    ..old(self).history
                },
                ..*old(self)
            }),
            final(self).history.asked() == old(self).history.asked().push(
                Effect::Open { generation: final(self).history.generation },
            ),
    {
        self.history.generation = self.history.generation + 1;
        let generation = self.history.generation;
        self.history.status = HistoryStatus::Loading;
        self.history.progress = None;
        self.history.load_running = true;
        self.history.ask(HistoryEffect::Open { generation });
    }

    /// The conversations of a store that was opened are in memory.
    pub open spec fn store_taken(self, before: AiWorkspaceEntity, heads: Seq<ConversationHead>, revision: u64) -> bool {
        let shown = page_of(heads);
        exists|listed: AiWorkspaceEntity|
            {
                &&& #[trigger] listed.lists_initialized(before, heads)
                &&& self == (AiWorkspaceEntity {
                    history: AiHistoryState {
                        changes: Changes { revision, ..listed.history.changes },
                        committed: revision,
                        branches: self.history.branches,
                        ..listed.history
                    },
                    conversation_state: self.conversation_state,
                    ..listed
                })
                &&& self.history.branches@ == branches_of(shown)
                &&& self.conversation_state.conversations@ == conversations_of(shown)
                &&& crate::text::opt_view(self.conversation_state.active_conversation_id)
                    == first_current(conversations_of(shown))
            }
    }

    fn take_store(&mut self, heads: Vec<ConversationHead>, revision: u64)
        requires
            old(self).wf(),
        ensures
            final(self).wf(),
            final(self).store_taken(*old(self), heads@, revision),
    {
        let mut heads = heads;
        let ghost all = heads@;
        self.initialize_conversation_list(&mut heads);
        let ghost listed = *self;
        assert(listed.lists_initialized(*old(self), all));
        let ghost shown = heads@;
        self.history.changes.revision = revision;
        self.history.committed = revision;
        let mut branches: Table<String, String> = Table::new();
        let mut conversations: Vec<AiConversation> = Vec::new();
        let ghost mut done: int = 0;
        assert(shown.take(0) =~= Seq::<ConversationHead>::empty());
        assert(heads@ =~= shown.skip(0));
        while heads.len() > 0
            invariant
                0 <= done <= shown.len(),
                heads@ == shown.skip(done),
                branches.wf(),
                branches@ == branches_of(shown.take(done)),
                conversations@ =~= conversations_of(shown.take(done)),
            decreases heads@.len(),
        {
            let head = heads.remove(0);
            assert(head == shown[done]);
            assert(heads@ =~= shown.skip(done + 1));
            assert(shown.take(done + 1).drop_last() =~= shown.take(done));
            branches.insert(head.conversation.id.clone(), head.active_branch);
            conversations.push(head.conversation);
            proof {
                done = done + 1;
            }
        }
        assert(shown.take(done) =~= shown);
        self.history.branches = branches;
        let active_conversation_id = find_first_current(&conversations);
        self.conversation_state = ConversationState { conversations, active_conversation_id };
    }

    /// What a writer of the opened store changes: the chat can be used, and asks for what it shows.
    pub open spec fn writer_taken(self, before: AiWorkspaceEntity, writer: HistoryWriteState) -> bool {
        exists|ready: AiWorkspaceEntity, listing: AiWorkspaceEntity|
            {
                &&& ready == (AiWorkspaceEntity {
                    history: AiHistoryState {
                        writer: Some(writer),
                        store_open: true,
                        status: HistoryStatus::Ready,
                        ..before.history
                    },
                    ..before
                })
                &&& if before.chat_ui.show_archived_conversations {
                    listing.list_requested(ready, true)
                } else {
                    listing == ready
                }
                &&& #[trigger] self.shown_requested(ready, listing)
            }
    }

    /// The chat shows no error, and asks for the conversation that it shows.
    pub open spec fn shown_requested(self, ready: AiWorkspaceEntity, listing: AiWorkspaceEntity) -> bool {
        let usable = AiWorkspaceEntity { chat_initialization_error: None, ..listing };
        match ready.conversation_state.active_conversation_id {
            Some(id) => self.page_requested(
                usable,
                id@,
                crate::ai_state::entity::PageDirection::Initial,
            ),
            None => self == usable,
        }
    }

    fn take_writer(&mut self, writer: HistoryWriteState)
        requires
            old(self).wf(),
            old(self).history.page_generation < u64::MAX,
        ensures
            final(self).wf(),
            final(self).writer_taken(*old(self), writer),
    {
        self.history.writer = Some(writer);
        self.history.store_open = true;
        self.history.status = HistoryStatus::Ready;
        let ghost ready = *self;
        if self.chat_ui.show_archived_conversations {
            self.request_conversation_list_page(true);
        }
        let ghost listing = *self;
        self.chat_initialization_error = None;
        let active = match &self.conversation_state.active_conversation_id {
            Some(id) => Some(id.clone()),
            None => None,
        };
        match active {
            Some(id) => {
                self.request_history_conversation(id);
            },
            None => {},
        }
        assert(self.shown_requested(ready, listing));
    }

    /// The chat says that its history could not be loaded.
    pub open spec fn load_refused(self, before: AiWorkspaceEntity) -> bool {
        &&& self == (AiWorkspaceEntity {
            history: AiHistoryState { status: HistoryStatus::Failed, ..before.history },
            chat_initialization_error: self.chat_initialization_error,
            ..before
        })
        &&& self.load_error()
    }

    /// What the attempt to open the store changes.
    pub open spec fn store_applied(self, before: AiWorkspaceEntity, store: Result<OpenedStore, ()>) -> bool {
        let settled = AiWorkspaceEntity {
            history: AiHistoryState { load_running: false, ..before.history },
            ..before
        };
        match store {
            Ok(store) => exists|taken: AiWorkspaceEntity|
                {
                    &&& #[trigger] taken.store_taken(settled, store.heads@, store.revision)
                    &&& match store.writer {
                        Some(writer) => self.writer_taken(taken, writer),
                        None => self.load_refused(taken),
                    }
                },
            Err(_) => self.load_refused(settled),
        }
    }

    fn apply_store(&mut self, store: Result<OpenedStore, ()>, clock: &mut RevisionClock)
        requires
            old(self).wf(),
            old(self).history.page_generation < u64::MAX,
        ensures
            final(self).wf(),
            final(self).store_applied(*old(self), store),
            final(clock).last == match store {
                Ok(store) => if store.revision > old(clock).last {
                    store.revision
                } else {
                    old(clock).last
                },
                Err(_) => old(clock).last,
            },
    {
        self.history.load_running = false;
        let ghost settled = *self;
        match store {
            Ok(store) => {
                self.take_store(store.heads, store.revision);
                let ghost taken = *self;
                assert(taken.store_taken(settled, store.heads@, store.revision));
                clock.catch_up(store.revision);
                match store.writer {
                    Some(writer) => {
                        self.take_writer(writer);
                    },
                    None => {
                        self.history.status = HistoryStatus::Failed;
                        self.history_load_failed();
                    },
                }
            },
            Err(_) => {
                self.history.status = HistoryStatus::Failed;
                self.history_load_failed();
            },
        }
    }

    /// What the runs that the store keeps of a conversation change.
    pub open spec fn agents_applied(self, before: AiWorkspaceEntity, conversation: Seq<char>, records: Result<Vec<AgentRecord>, ()>) -> bool {
        let settled = AiWorkspaceEntity {
            history: AiHistoryState { agents_load_running: false, ..before.history },
            ..before
        };
        if !has_conversation(before.conversation_state.conversations@, conversation) {
            self == settled
        } else {
            match records {
                Ok(records) => {
                    &&& self == (AiWorkspaceEntity {
                        agents: AiAgentWorkspace { records: self.agents.records, ..before.agents },
                        ..settled
                    })
                    &&& self.agents.records@ == runs_added(before.agents.records@, records@)
                },
                Err(_) => {
                    &&& self == (AiWorkspaceEntity {
                        chat_initialization_error: self.chat_initialization_error,
                        ..settled
                    })
                    &&& self.load_error()
                },
            }
        }
    }

    fn add_runs(&mut self, records: Vec<AgentRecord>)
        requires
            old(self).wf(),
        ensures
            final(self).wf(),
            *final(self) == (AiWorkspaceEntity {
                agents: AiAgentWorkspace { records: final(self).agents.records, ..old(self).agents },
                ..*old(self)
            }),
            final(self).agents.records@ == runs_added(old(self).agents.records@, records@),
    {
        let ghost all = records@;
        let mut records = records;
        let ghost mut done: int = 0;
        assert(all.take(0) =~= Seq::<AgentRecord>::empty());
        assert(records@ =~= all.skip(0));
        while records.len() > 0
            invariant
                0 <= done <= all.len(),
                records@ == all.skip(done),
                self.wf(),
                *self == (AiWorkspaceEntity {
                    agents: AiAgentWorkspace { records: self.agents.records, ..old(self).agents },
                    ..*old(self)
                }),
                self.agents.records@ == runs_added(old(self).agents.records@, all.take(done)),
            decreases records@.len(),
        {
            let record = records.remove(0);
            assert(record == all[done]);
            assert(records@ =~= all.skip(done + 1));
            assert(all.take(done + 1).drop_last() =~= all.take(done));
            let run = record.snapshot.run.run_id.clone();
            if !self.agents.records.contains(&run) {
                self.agents.records.insert(run, record);
            }
            proof {
                done = done + 1;
            }
        }
        assert(all.take(done) =~= all);
    }

    fn apply_agents(&mut self, conversation: String, records: Result<Vec<AgentRecord>, ()>)
        requires
            old(self).wf(),
        ensures
            final(self).wf(),
            final(self).agents_applied(*old(self), conversation@, records),
    {
        self.history.agents_load_running = false;
        if find_conversation(&self.conversation_state.conversations, conversation.as_str()).is_none() {
            return;
        }
        match records {
            Ok(records) => {
                self.add_runs(records);
            },
            Err(_) => {
                self.history_load_failed();
            },
        }
    }

    /// Whether the counts that a delivery raises have room.
    pub open spec fn has_room(self, delivery: Delivery) -> bool {
        &&& self.history.page_generation < u64::MAX
        &&& match delivery {
            Delivery::Body(body) => self.view_of(body.owner.id()) is Some ==> Self::counted(
                self.view_of(body.owner.id())->0.body_revisions@,
                body.message@,
            ) < u64::MAX,
            Delivery::Archive(archive) => archive.revision < u64::MAX,
            _ => true,
        }
    }

    /// Finds out whether the counts that a delivery raises have room.
    pub fn can_apply(&self, delivery: &Delivery) -> (res: bool)
        requires
            self.wf(),
        ensures
            res == self.has_room(*delivery),
    {
        if self.history.page_generation == u64::MAX {
            return false;
        }
        match delivery {
            Delivery::Body(body) => match self.history_view(&body.owner) {
                Some(page) => match page.body_revisions.get(&body.message) {
                    Some(count) => *count < u64::MAX,
                    None => true,
                },
                None => true,
            },
            Delivery::Archive(archive) => archive.revision < u64::MAX,
            _ => true,
        }
    }

    /// What a delivery changes. One of an earlier generation changes nothing.
    pub open spec fn delivered(self, before: AiWorkspaceEntity, delivery: Delivery, waiter: u64) -> bool {
        match delivery {
            Delivery::Conversations { generation, epoch, archived, heads } => if generation
                == before.history.generation && epoch == before.history.conversation_list_epoch {
                self.list_applied(before, archived, heads)
            } else {
                self == before
            },
            Delivery::Archive(delivery) => if before.awaits_archive(delivery) {
                self.archive_applied(before, delivery)
            } else {
                self == before
            },
            Delivery::Progress { generation, done, total } => self == if generation
                == before.history.generation {
                AiWorkspaceEntity {
                    history: AiHistoryState { progress: Some((done, total)), ..before.history },
                    ..before
                }
            } else {
                before
            },
            Delivery::Initialized { generation, store } => if generation
                == before.history.generation {
                self.store_applied(before, store)
            } else {
                self == before
            },
            Delivery::Page(delivery) => self.page_delivered(before, delivery),
            Delivery::Body(delivery) => if before.awaits_body(delivery) {
                self.body_shown(before, delivery)
            } else {
                self == before
            },
            Delivery::Agents { generation, conversation, records } => if generation
                == before.history.generation {
                self.agents_applied(before, conversation@, records)
            } else {
                self == before
            },
            Delivery::StreamSave => self == (AiWorkspaceEntity {
                history: AiHistoryState { save_timer_running: false, ..before.history },
                ..before
            }),
            Delivery::Written { revision, streams } => self.write_applied(
                before,
                revision,
                streams@,
                waiter,
            ),
            Delivery::WriteFailed => self == (AiWorkspaceEntity {
                history: AiHistoryState {
                    write_running: false,
                    status: HistoryStatus::Failed,
                    ..before.history
                },
                ..before
            }),
            Delivery::WriteState(state) => self == (AiWorkspaceEntity {
                history: AiHistoryState {
                    status: if state == HistoryWriteState::Ready {
                        HistoryStatus::Ready
                    } else {
                        HistoryStatus::Failed
                    },
                    writer: if before.history.writer is Some {
                        Some(state)
                    } else {
                        None
                    },
                    ..before.history
                },
                ..before
            }),
        }
    }

    /// What a delivered page changes.
    pub open spec fn page_delivered(self, before: AiWorkspaceEntity, delivery: PageDelivery) -> bool {
        if before.awaits_page(delivery) {
            exists|settled: AiWorkspaceEntity|
                {
                    &&& #[trigger] settled.settled_from(before, delivery.id@)
                    &&& match delivery.result {
                        Ok(page) => self.page_arrived(
                            settled,
                            delivery.id@,
                            delivery.branch,
                            page,
                            delivery.direction,
                        ),
                        Err(_) => self.page_failed(settled, delivery.id@, delivery.direction),
                    }
                }
        } else {
            self == before
        }
    }

    /// Takes in something that the store sent back.
    pub fn apply_delivery(&mut self, delivery: Delivery, clock: &mut RevisionClock, waiter: u64)
        requires
            old(self).wf(),
            old(self).has_room(delivery),
        ensures
            final(self).wf(),
            final(self).delivered(*old(self), delivery, waiter),
            final(clock).last == clock_after(*old(self), delivery, old(clock).last),
    {
        match delivery {
            Delivery::Conversations { generation, epoch, archived, heads } => {
                if generation == self.history.generation && epoch
                    == self.history.conversation_list_epoch {
                    self.apply_conversation_list(archived, heads);
                }
            },
            Delivery::Archive(delivery) => {
                self.apply_history_archive(delivery);
            },
            Delivery::Progress { generation, done, total } => {
                if generation == self.history.generation {
                    self.history.progress = Some((done, total));
                }
            },
            Delivery::Initialized { generation, store } => {
                if generation == self.history.generation {
                    self.apply_store(store, clock);
                }
            },
            Delivery::Page(delivery) => {
                self.apply_history_page(delivery);
            },
            Delivery::Body(delivery) => {
                self.apply_history_body(delivery);
            },
            Delivery::Agents { generation, conversation, records } => {
                if generation == self.history.generation {
                    self.apply_agents(conversation, records);
                }
            },
            Delivery::StreamSave => {
                self.history.save_timer_running = false;
            },
            Delivery::Written { revision, streams } => {
                self.apply_written(revision, streams, waiter);
            },
            Delivery::WriteFailed => {
                self.history.write_running = false;
                self.history.status = HistoryStatus::Failed;
            },
            Delivery::WriteState(state) => {
                self.history.status = if state == HistoryWriteState::Ready {
                    HistoryStatus::Ready
                } else {
                    HistoryStatus::Failed
                };
                if self.history.writer.is_some() {
                    self.history.writer = Some(state);
                }
            },
        }
    }

    /// The waiters once those whose changes are on disk were told.
    pub open spec fn waiters_answered(self, before: AiWorkspaceEntity, closed: Seq<u64>) -> bool {
        if before.history.status == HistoryStatus::Ready && before.history.writes() {
            &&& self == (AiWorkspaceEntity {
                history: AiHistoryState {
                    waiters: self.history.waiters,
                    effects: self.history.effects,
                    ..before.history
                },
                ..before
            })
            &&& self.history.waiters@ == still_waiting(
                before.history.waiters@,
                before.history.committed,
                closed,
            )
            &&& self.history.asked() == before.history.asked() + answers(
                before.history.waiters@,
                before.history.committed,
            )
        } else {
            self == before
        }
    }

    fn answer_waiters(&mut self, closed: &Vec<u64>)
        requires
            old(self).wf(),
        ensures
            final(self).wf(),
            final(self).waiters_answered(*old(self), closed@),
    {
        if self.history.status != HistoryStatus::Ready || !self.history.writer_is_ready() {
            return;
        }
        let mut waiters: Vec<(u64, u64)> = Vec::new();
        std::mem::swap(&mut waiters, &mut self.history.waiters);
        let ghost all = waiters@;
        let ghost asked = self.history.asked();
        let mut at: usize = 0;
        assert(all.take(0) =~= Seq::<(u64, u64)>::empty());
        assert(asked + Seq::<Effect>::empty() =~= asked);
        while at < waiters.len()
            invariant
                at <= waiters.len(),
                all == waiters@,
                all == old(self).history.waiters@,
                asked == old(self).history.asked(),
                self.wf(),
                *self == (AiWorkspaceEntity {
                    history: AiHistoryState {
                        waiters: self.history.waiters,
                        effects: self.history.effects,
                        ..old(self).history
                    },
                    ..*old(self)
                }),
                self.history.waiters@ == still_waiting(
                    all.take(at as int),
                    old(self).history.committed,
                    closed@,
                ),
                self.history.asked() == asked + answers(
                    all.take(at as int),
                    old(self).history.committed,
                ),
            decreases waiters.len() - at,
        {
            let (version, waiter) = waiters[at];
            assert(all.take(at + 1).drop_last() =~= all.take(at as int));
            let ghost told = answers(all.take(at as int), old(self).history.committed);
            if version <= self.history.committed {
                self.history.ask(HistoryEffect::Answer { waiter, committed: true });
                assert((asked + told).push(Effect::Answer { waiter, committed: true }) =~= asked
                    + told.push(Effect::Answer { waiter, committed: true }));
            } else if !lists_waiter(closed, waiter) {
                self.history.waiters.push((version, waiter));
            }
            at = at + 1;
        }
        assert(all.take(at as int) =~= all);
    }

    /// What follows once everything that the store sent was taken in: the waiters whose changes are
    /// on disk are told, and writing goes on.
    pub open spec fn drain_finished(self, before: AiWorkspaceEntity, closed: Seq<u64>) -> bool {
        exists|answered: AiWorkspaceEntity|
            {
                &&& #[trigger] answered.waiters_answered(before, closed)
                &&& if answered.can_write() {
                    &&& self == (AiWorkspaceEntity {
                        history: AiHistoryState {
                            write_running: true,
                            effects: self.history.effects,
                            ..answered.history
                        },
                        ..answered
                    })
                    &&& self.history.asked() == answered.history.asked().push(
                        Effect::Write(answered.journal()),
                    )
                } else {
                    self == answered
                }
            }
    }

    fn finish_drain(&mut self, closed: &Vec<u64>)
        requires
            old(self).wf(),
        ensures
            final(self).wf(),
            final(self).drain_finished(*old(self), closed@),
    {
        self.answer_waiters(closed);
        let ghost answered = *self;
        assert(answered.waiters_answered(*old(self), closed@));
        self.start_history_write();
    }

    /// Takes in what the store sent back, then tells the waiters whose changes are on disk, and goes
    /// on writing. `closed` lists the waiters that no longer listen. What is returned could not be
    /// taken in, because a count has no room left.
    pub fn drain_history(
        &mut self,
        deliveries: Vec<Delivery>,
        closed: &Vec<u64>,
        clock: &mut RevisionClock,
        waiter: u64,
    ) -> (res: Vec<Delivery>)
        requires
            old(self).wf(),
            waiter + deliveries@.len() <= u64::MAX,
        ensures
            final(self).wf(),
            exists|steps: Seq<AiWorkspaceEntity>|
                {
                    &&& #[trigger] steps_of_drain(steps, deliveries@, waiter)
                    &&& steps[0] == *old(self)
                    &&& res@ == deliveries@.skip(steps.len() - 1)
                    &&& res@.len() > 0 ==> !steps.last().has_room(res@[0])
                    &&& final(self).drain_finished(steps.last(), closed@)
                    &&& final(clock).last == clock_along(
                        steps,
                        deliveries@,
                        old(clock).last,
                        steps.len() - 1,
                    )
                },
    {
        let ghost all = deliveries@;
        let ghost mut steps: Seq<AiWorkspaceEntity> = seq![*self];
        let total: usize = deliveries.len();
        let mut rest = deliveries;
        let mut done: u64 = 0;
        assert(rest@ =~= all.skip(0));
        let mut fits = true;
        while rest.len() > 0 && fits
            invariant
                total == all.len(),
                done <= all.len(),
                waiter + all.len() <= u64::MAX,
                rest@ == all.skip(done as int),
                self.wf(),
                steps.len() == done + 1,
                steps[0] == *old(self),
                steps.last() == *self,
                clock.last == clock_along(steps, all, old(clock).last, done as int),
                !fits ==> rest@.len() > 0 && !self.has_room(rest@[0]),
                forall|i: int|
                    #![trigger all[i]]
                    0 <= i < done ==> steps[i + 1].delivered(
                        steps[i],
                        all[i],
                        (waiter + i) as u64,
                    ),
            decreases
                rest@.len(),
                if fits {
                    1int
                } else {
                    0int
                },
        {
            if self.can_apply(&rest[0]) {
                let delivery = rest.remove(0);
                assert(delivery == all[done as int]);
                assert(rest@ =~= all.skip(done + 1));
                self.apply_delivery(delivery, clock, waiter + done);
                proof {
                    lemma_clock_along(steps, *self, all, old(clock).last, done as int);
                    steps = steps.push(*self);
                    assert(steps[done as int] == steps[steps.len() - 2]);
                }
                done = done + 1;
            } else {
                fits = false;
            }
        }
        assert(steps_of_drain(steps, all, waiter));
        self.finish_drain(closed);
        rest
    }
}

/// Once the conversations were cleared both lists are known to be complete: asking for more of either
/// asks the store for nothing, and what the store still answers to an earlier request is dropped.
pub proof fn law_cleared_lists_stay_cleared(
    before: AiWorkspaceEntity,
    cleared: AiWorkspaceEntity,
    asked: AiWorkspaceEntity,
    delivered: AiWorkspaceEntity,
    archived: bool,
    generation: u64,
    of_list: bool,
    heads: Result<Vec<ConversationHead>, ()>,
    waiter: u64,
)
    requires
        cleared.lists_cleared(before),
        asked.list_requested(cleared, archived),
        delivered.delivered(
            cleared,
            Delivery::Conversations {
                generation,
                epoch: before.history.conversation_list_epoch,
                archived: of_list,
                heads,
            },
            waiter,
        ),
    ensures
        cleared.list_page(archived).initialized,
        !cleared.list_page(archived).has_more,
        !cleared.list_page(archived).failed,
        !cleared.list_page(archived).running,
        asked == cleared,
        delivered == cleared,
{
}

} // verus!
