//! The detail view of a run: its messages and what it said to other agents.

use vstd::prelude::*;

use crate::ai_state::entity::{
    all_pages_wf, AiAgentWorkspace, AiHistoryState, AiWorkspaceEntity, HistoryPageState,
};
use crate::ai_state::model::{AgentRecord, HistoryViewOwner, MessagePage, ViewOwner};
use crate::table::{Key, Table};
use crate::text;

verus! {

/// A page of a run's messages that the store delivered.
pub struct AgentPageDelivery {
    pub conversation: String,
    pub run: String,
    pub record_revision: u64,
    pub result: Result<MessagePage, ()>,
}

/// Whether a window shows the messages of a run of a list.
pub open spec fn shows_any(owner: ViewOwner, runs: Seq<Seq<char>>) -> bool {
    match owner {
        ViewOwner::Agent(_, run) => runs.contains(run),
        _ => false,
    }
}

/// The windows that show no run of a list.
pub open spec fn without_runs(pages: Map<ViewOwner, HistoryPageState>, runs: Seq<Seq<char>>) -> Map<ViewOwner, HistoryPageState> {
    pages.restrict(Set::new(|owner: ViewOwner| !shows_any(owner, runs)))
}

/// What is kept of a map for runs that are not in a list.
pub open spec fn of_other_runs<V>(map: Map<Seq<char>, V>, runs: Seq<Seq<char>>) -> Map<Seq<char>, V> {
    map.restrict(Set::new(|run: Seq<char>| !runs.contains(run)))
}

pub open spec fn versions_of_other_runs(map: Map<(Seq<char>, u64), bool>, runs: Seq<Seq<char>>) -> Map<(Seq<char>, u64), bool> {
    map.restrict(Set::new(|key: (Seq<char>, u64)| !runs.contains(key.0)))
}

fn keep_other_runs<V>(table: &mut Table<String, V>, runs: &Vec<String>)
    requires
        old(table).wf(),
    ensures
        final(table).wf(),
        final(table)@ == of_other_runs(old(table)@, text::seq_view(runs@)),
{
    let keep = |run: &String, _value: &V| -> (res: bool)
        ensures
            res == !text::seq_view(runs@).contains(run@),
        { !text::list_contains(runs, run.as_str()) };
    let ghost before = table@;
    table.retain(
        keep,
        Ghost(|run: Seq<char>, _value: V| !text::seq_view(runs@).contains(run)),
    );
    assert(table@ =~= of_other_runs(before, text::seq_view(runs@)));
}

fn keep_other_windows(table: &mut Table<HistoryViewOwner, HistoryPageState>, runs: &Vec<String>)
    requires
        old(table).wf(),
        all_pages_wf(old(table)@),
    ensures
        final(table).wf(),
        all_pages_wf(final(table)@),
        final(table)@ == without_runs(old(table)@, text::seq_view(runs@)),
{
    let keep = |owner: &HistoryViewOwner, _page: &HistoryPageState| -> (res: bool)
        ensures
            res == !shows_any(owner.id(), text::seq_view(runs@)),
        {
            match owner {
                HistoryViewOwner::Agent(_, run) => !text::list_contains(runs, run.as_str()),
                _ => true,
            }
        };
    let ghost before = table@;
    table.retain(
        keep,
        Ghost(
            |owner: ViewOwner, _page: HistoryPageState|
                !shows_any(owner, text::seq_view(runs@)),
        ),
    );
    assert(table@ =~= without_runs(before, text::seq_view(runs@)));
    proof {
        reveal(all_pages_wf);
    }
}

impl AiWorkspaceEntity {
    /// What forgetting runs does to the views of them.
    pub open spec fn views_removed(self, before: AiWorkspaceEntity, runs: Seq<Seq<char>>) -> bool {
        &&& self == (AiWorkspaceEntity {
            agents: AiAgentWorkspace {
                detail_tasks: self.agents.detail_tasks,
                detail_lists: self.agents.detail_lists,
                communication_pages: self.agents.communication_pages,
                communication_versions: self.agents.communication_versions,
                ..before.agents
            },
            history: AiHistoryState {
                auxiliary_pages: self.history.auxiliary_pages,
                ..before.history
            },
            ..before
        })
        &&& self.agents.detail_tasks@ == of_other_runs(before.agents.detail_tasks@, runs)
        &&& self.agents.detail_lists@ == of_other_runs(before.agents.detail_lists@, runs)
        &&& self.agents.communication_pages@ == of_other_runs(
            before.agents.communication_pages@,
            runs,
        )
        &&& self.agents.communication_versions@ == versions_of_other_runs(
            before.agents.communication_versions@,
            runs,
        )
        &&& self.history.auxiliary_pages@ == without_runs(before.history.auxiliary_pages@, runs)
    }

    /// Removes the views of runs that are gone.
    pub fn remove_agent_history_views(&mut self, removed: &Vec<String>)
        requires
            old(self).wf(),
        ensures
            final(self).wf(),
            final(self).views_removed(*old(self), text::seq_view(removed@)),
    {
        keep_other_runs(&mut self.agents.detail_tasks, removed);
        keep_other_runs(&mut self.agents.detail_lists, removed);
        keep_other_runs(&mut self.agents.communication_pages, removed);
        let keep = |key: &(String, u64), _consumed: &bool| -> (res: bool)
            ensures
                res == !text::seq_view(removed@).contains(key.0@),
            { !text::list_contains(removed, key.0.as_str()) };
        self.agents.communication_versions.retain(
            keep,
            Ghost(
                |key: (Seq<char>, u64), _consumed: bool| !text::seq_view(removed@).contains(key.0),
            ),
        );
        assert(self.agents.communication_versions@ =~= versions_of_other_runs(
            old(self).agents.communication_versions@,
            text::seq_view(removed@),
        ));
        keep_other_windows(&mut self.history.auxiliary_pages, removed);
    }

    /// What closing the detail view does.
    pub open spec fn detail_closed(self, before: AiWorkspaceEntity) -> bool {
        match before.agents.detail {
            Some(id) => {
                &&& self == (AiWorkspaceEntity {
                    agents: AiAgentWorkspace {
                        detail: None,
                        detail_tasks: self.agents.detail_tasks,
                        details_loading: self.agents.details_loading,
                        detail_lists: self.agents.detail_lists,
                        communication_pages: self.agents.communication_pages,
                        ..before.agents
                    },
                    history: AiHistoryState {
                        auxiliary_pages: self.history.auxiliary_pages,
                        ..before.history
                    },
                    ..before
                })
                &&& self.agents.detail_tasks@ == before.agents.detail_tasks@.remove(id@)
                &&& self.agents.details_loading@ == before.agents.details_loading@.remove(id@)
                &&& self.agents.detail_lists@ == before.agents.detail_lists@.remove(id@)
                &&& self.agents.communication_pages@ == before.agents.communication_pages@.remove(id@)
                &&& self.history.auxiliary_pages@ == without_runs(
                    before.history.auxiliary_pages@,
                    seq![id@],
                )
            },
            None => self == before,
        }
    }

    /// Closes the detail view and gives up what is read for it.
    pub fn close_agent_detail(&mut self)
        requires
            old(self).wf(),
        ensures
            final(self).wf(),
            final(self).detail_closed(*old(self)),
    {
        let mut detail: Option<String> = None;
        std::mem::swap(&mut detail, &mut self.agents.detail);
        match detail {
            Some(id) => {
                self.agents.detail_tasks.remove(&id);
                self.agents.details_loading.remove(&id);
                self.agents.detail_lists.remove(&id);
                self.agents.communication_pages.remove(&id);
                let mut runs: Vec<String> = Vec::new();
                runs.push(id);
                assert(text::seq_view(runs@) =~= seq![id@]);
                keep_other_windows(&mut self.history.auxiliary_pages, &runs);
            },
            None => {},
        }
    }

    /// Whether the messages of a run are kept on disk alone: the run is over, and none of them waits
    /// to be written.
    pub open spec fn is_released(self, record: AgentRecord) -> bool {
        &&& record.snapshot.state.ended()
        &&& forall|i: int|
            0 <= i < record.messages@.len() ==> !self.history.changes.messages@.dom().contains(
                (record.snapshot.conversation_id@, (#[trigger] record.messages@[i]).id@),
            )
    }

    fn releases(&self, record: &AgentRecord) -> (res: bool)
        requires
            self.wf(),
        ensures
            res == self.is_released(*record),
    {
        if !record.snapshot.state.is_terminal() {
            return false;
        }
        let mut at: usize = 0;
        while at < record.messages.len()
            invariant
                self.wf(),
                at <= record.messages.len(),
                record.snapshot.state.ended(),
                forall|i: int|
                    0 <= i < at ==> !self.history.changes.messages@.dom().contains(
                        (record.snapshot.conversation_id@, (#[trigger] record.messages@[i]).id@),
                    ),
            decreases record.messages.len() - at,
        {
            if self.history_message_is_pending(
                record.snapshot.conversation_id.as_str(),
                record.messages[at].id.as_str(),
            ) {
                assert(self.history.changes.messages@.dom().contains(
                    (record.snapshot.conversation_id@, record.messages@[at as int].id@),
                ));
                return false;
            }
            at = at + 1;
        }
        true
    }

    /// A record without messages.
    pub open spec fn emptied(after: AgentRecord, before: AgentRecord) -> bool {
        &&& after == (AgentRecord { messages: after.messages, ..before })
        &&& after.messages@.len() == 0
    }

    /// What letting go of messages that are on disk does.
    pub open spec fn messages_released(self, before: AiWorkspaceEntity) -> bool {
        &&& self == (AiWorkspaceEntity {
            agents: AiAgentWorkspace { records: self.agents.records, ..before.agents },
            ..before
        })
        &&& self.agents.records@.dom() == before.agents.records@.dom()
        &&& forall|run: Seq<char>|
            before.agents.records@.dom().contains(run) ==> if before.is_released(
                before.agents.records@[run],
            ) {
                Self::emptied(#[trigger] self.agents.records@[run], before.agents.records@[run])
            } else {
                self.agents.records@[run] == before.agents.records@[run]
            }
    }

    /// Lets go of the messages of runs that are over and on disk.
    pub fn release_committed_agent_messages(&mut self)
        requires
            old(self).wf(),
        ensures
            final(self).wf(),
            final(self).messages_released(*old(self)),
    {
        let keys = self.agents.records.keys();
        let ghost before = self.agents.records@;
        let mut at: usize = 0;
        while at < keys.len()
            invariant
                at <= keys.len(),
                self.wf(),
                *self == (AiWorkspaceEntity {
                    agents: AiAgentWorkspace { records: self.agents.records, ..old(self).agents },
                    ..*old(self)
                }),
                before == old(self).agents.records@,
                self.agents.records@.dom() == before.dom(),
                forall|i: int| 0 <= i < keys@.len() ==> before.dom().contains((#[trigger] keys@[i])@),
                forall|i: int, j: int|
                    0 <= i < j < keys@.len() ==> (#[trigger] keys@[i])@ != (#[trigger] keys@[j])@,
                forall|i: int|
                    0 <= i < at ==> if old(self).is_released(before[(#[trigger] keys@[i])@]) {
                        Self::emptied(self.agents.records@[keys@[i]@], before[keys@[i]@])
                    } else {
                        self.agents.records@[keys@[i]@] == before[keys@[i]@]
                    },
                forall|i: int|
                    at <= i < keys@.len() ==> self.agents.records@[(#[trigger] keys@[i])@]
                        == before[keys@[i]@],
            decreases keys.len() - at,
        {
            let released = match self.agents.records.get(&keys[at]) {
                Some(record) => self.releases(record),
                None => false,
            };
            assert(released == old(self).is_released(before[keys@[at as int]@]));
            if released {
                let ghost prior = self.agents.records@;
                match self.agents.records.remove(&keys[at]) {
                    Some(record) => {
                        let mut record = record;
                        record.messages.clear();
                        let ghost now = record;
                        self.agents.records.insert(keys[at].clone(), record);
                        proof {
                            assert(self.agents.records@ =~= prior.insert(keys@[at as int]@, now));
                            assert(self.agents.records@.dom() =~= before.dom());
                            assert forall|i: int| 0 <= i < keys@.len() && i != at implies (
                            #[trigger] keys@[i])@ != keys@[at as int]@ by {
                                if i < at {
                                } else {
                                }
                            }
                        }
                    },
                    None => {},
                }
            }
            at = at + 1;
        }
        proof {
            assert forall|run: Seq<char>| before.dom().contains(run) implies if old(self).is_released(
                before[run],
            ) {
                Self::emptied(#[trigger] self.agents.records@[run], before[run])
            } else {
                self.agents.records@[run] == before[run]
            } by {
                let i = choose|i: int| 0 <= i < keys@.len() && (#[trigger] keys@[i]).id() == run;
                assert(keys@[i]@ == run);
            }
        }
    }
}

/// A message that waits to be written stays in memory.
pub proof fn law_waiting_messages_stay_in_memory(
    before: AiWorkspaceEntity,
    after: AiWorkspaceEntity,
    run: Seq<char>,
    at: int,
)
    requires
        after.messages_released(before),
        before.agents.records@.dom().contains(run),
        0 <= at < before.agents.records@[run].messages@.len(),
        before.history.changes.messages@.dom().contains(
            (
                before.agents.records@[run].snapshot.conversation_id@,
                before.agents.records@[run].messages@[at].id@,
            ),
        ),
    ensures
        after.agents.records@[run].messages@ == before.agents.records@[run].messages@,
{
    let record = before.agents.records@[run];
    assert(!before.is_released(record)) by {
        let waiting = record.messages@[at];
    }
    assert(after.agents.records@[run] == record);
}

} // verus!
