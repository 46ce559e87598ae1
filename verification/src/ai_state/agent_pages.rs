//! Reading what the detail view of a run shows.

use vstd::prelude::*;

use crate::ai_state::agent_details::AgentPageDelivery;
use crate::ai_state::entity::{
    all_pages_wf, AgentCommunicationPage, AgentCommunicationView, AiAgentWorkspace, AiHistoryState,
    AiWorkspaceEntity, Effect, HistoryEffect, HistoryPageState,
};
use crate::ai_state::model::{
    duplicate_cursor, HistoryCursor, HistoryViewOwner, MessageDescriptor, MessagePage, ViewOwner,
};
use crate::ai_state::window::{take_in, taken_in};
use crate::table::{Key, Table};
use crate::text;

verus! {

impl AgentCommunicationView {
    /// A view that nothing has been loaded into.
    pub open spec fn is_blank(self) -> bool {
        self.page is None && self.cursors@.len() == 0 && !self.loading && !self.failed
    }

    pub fn new() -> (res: AgentCommunicationView)
        ensures
            res.is_blank(),
    {
        AgentCommunicationView { page: None, cursors: Vec::new(), loading: false, failed: false }
    }

    /// The pages that lead to the one asked for; nothing where there is no such page or one is
    /// being read.
    pub open spec fn turned(self, older: Option<bool>) -> Option<Seq<Option<u64>>> {
        if self.loading {
            None
        } else {
            match older {
                Some(true) => match self.page {
                    Some(page) => match page.before {
                        Some(before) => Some(self.cursors@.push(Some(before))),
                        None => None,
                    },
                    None => None,
                },
                Some(false) => if self.cursors@.len() > 1 {
                    Some(self.cursors@.drop_last())
                } else {
                    None
                },
                None => Some(seq![None::<u64>]),
            }
        }
    }

    fn turn(&mut self, older: Option<bool>) -> (res: bool)
        ensures
            res == old(self).turned(older) is Some,
            !res ==> *final(self) == *old(self),
            *final(self) == (AgentCommunicationView {
                cursors: final(self).cursors,
                ..*old(self)
            }),
            final(self).cursors@ == match old(self).turned(older) {
                Some(cursors) => cursors,
                None => old(self).cursors@,
            },
    {
        if self.loading {
            return false;
        }
        match older {
            Some(true) => {
                let before = match &self.page {
                    Some(page) => page.before,
                    None => None,
                };
                match before {
                    Some(before) => {
                        self.cursors.push(Some(before));
                        true
                    },
                    None => false,
                }
            },
            Some(false) => {
                if self.cursors.len() > 1 {
                    self.cursors.pop();
                    true
                } else {
                    false
                }
            },
            None => {
                let mut cursors: Vec<Option<u64>> = Vec::new();
                cursors.push(None);
                assert(cursors@ =~= seq![None::<u64>]);
                self.cursors = cursors;
                true
            },
        }
    }
}

/// Where the last page of a list begins.
pub open spec fn last_start(cursors: Seq<Option<u64>>) -> Option<u64> {
    if cursors.len() == 0 {
        None
    } else {
        cursors.last()
    }
}

/// The window of a run once a page of its messages came in.
pub open spec fn run_page(page: HistoryPageState, before: HistoryPageState, delivered: MessagePage) -> bool {
    &&& page == (HistoryPageState {
        before: delivered.before,
        after: delivered.after,
        descriptions: page.descriptions,
        bodies: page.bodies,
        ..before
    })
    &&& page.descriptions@ == taken_in(Map::empty(), delivered.messages@)
    &&& page.bodies@ == before.bodies@.restrict(page.descriptions@.dom())
}

fn take_run_page(page: &mut HistoryPageState, delivered: MessagePage)
    requires
        old(page).wf(),
    ensures
        final(page).wf(),
        run_page(*final(page), *old(page), delivered),
{
    page.before = delivered.before;
    page.after = delivered.after;
    let mut descriptions: Table<String, MessageDescriptor> = Table::new();
    take_in(&mut descriptions, delivered.messages);
    page.descriptions = descriptions;
    let shown = &page.descriptions;
    let keep = |id: &String, _body: &u64| -> (res: bool)
        ensures
            res == shown@.dom().contains(id@),
        { shown.contains(id) };
    let ghost bodies = page.bodies@;
    page.bodies.retain(keep, Ghost(|id: Seq<char>, _body: u64| shown@.dom().contains(id)));
    assert(page.bodies@ =~= bodies.restrict(page.descriptions@.dom()));
}

impl AiWorkspaceEntity {
    /// The host is asked for something once everything so far is on disk.
    pub open spec fn asks_after(self, before: AiWorkspaceEntity, waiter: u64, effect: Effect) -> bool {
        exists|barred: AiWorkspaceEntity|
            #[trigger] barred.barrier_set(before, waiter) && self.asks(barred, Some(effect))
    }

    fn ask_after(&mut self, waiter: u64, effect: HistoryEffect)
        requires
            old(self).wf(),
        ensures
            final(self).wf(),
            final(self).asks_after(*old(self), waiter, effect@),
    {
        self.history_barrier(waiter);
        assert(self.barrier_set(*old(self), waiter));
        self.history.ask(effect);
    }

    /// What is known of the communication of a run.
    pub open spec fn communication_of(self, view: AgentCommunicationView, run: Seq<char>) -> bool {
        if self.agents.communication_pages@.dom().contains(run) {
            view == self.agents.communication_pages@[run]
        } else {
            view.is_blank()
        }
    }

    /// What asking for a page of a run's communication does.
    pub open spec fn communication_requested(self, before: AiWorkspaceEntity, run: Seq<char>, older: Option<bool>, waiter: u64) -> bool {
        if !before.agents.records@.dom().contains(run) || !before.history.store_open {
            self == before
        } else {
            exists|view: AgentCommunicationView, shown: AiWorkspaceEntity|
                {
                    let now = shown.agents.communication_pages@[run];
                    &&& #[trigger] before.communication_of(view, run)
                    &&& #[trigger] shown.communication_shown(before, run)
                    &&& match view.turned(older) {
                        Some(cursors) => {
                            &&& now == (AgentCommunicationView {
                                cursors: now.cursors,
                                loading: true,
                                failed: false,
                                ..view
                            })
                            &&& now.cursors@ == cursors
                            &&& self.asks_after(
                                shown,
                                waiter,
                                Effect::LoadCommunication {
                                    conversation: before.agents.records@[run].snapshot.conversation_id@,
                                    run,
                                    before_sequence: last_start(cursors),
                                    waiter,
                                },
                            )
                        },
                        None => now == view && self == shown,
                    }
                }
        }
    }

    /// Only the view of a run's communication differs.
    pub open spec fn communication_shown(self, before: AiWorkspaceEntity, run: Seq<char>) -> bool {
        &&& self == (AiWorkspaceEntity {
            agents: AiAgentWorkspace {
                communication_pages: self.agents.communication_pages,
                ..before.agents
            },
            ..before
        })
        &&& self.agents.communication_pages@ == before.agents.communication_pages@.insert(
            run,
            self.agents.communication_pages@[run],
        )
    }

    /// Asks the store for a page of what a run said to other agents.
    pub fn load_agent_communication(&mut self, run: &String, older: Option<bool>, waiter: u64)
        requires
            old(self).wf(),
        ensures
            final(self).wf(),
            final(self).communication_requested(*old(self), run@, older, waiter),
    {
        let conversation = match self.agents.records.get(run) {
            Some(record) => record.snapshot.conversation_id.clone(),
            None => {
                return;
            },
        };
        if !self.history.store_open {
            return;
        }
        let mut view = match self.agents.communication_pages.remove(run) {
            Some(view) => view,
            None => AgentCommunicationView::new(),
        };
        let ghost known = view;
        assert(old(self).communication_of(known, run@));
        let turned = view.turn(older);
        let before_sequence = if view.cursors.len() == 0 {
            None
        } else {
            view.cursors[view.cursors.len() - 1]
        };
        if turned {
            view.loading = true;
            view.failed = false;
        }
        let ghost now = view;
        self.agents.communication_pages.insert(run.clone(), view);
        assert(self.agents.communication_pages@ =~= old(self).agents.communication_pages@.insert(
            run@,
            now,
        ));
        let ghost shown = *self;
        assert(shown.communication_shown(*old(self), run@));
        if turned {
            self.ask_after(
                waiter,
                HistoryEffect::LoadCommunication {
                    conversation,
                    run: run.clone(),
                    before_sequence,
                    waiter,
                },
            );
        }
    }

    /// Whether the detail view shows a run.
    pub open spec fn shows_detail(self, run: Seq<char>) -> bool {
        self.agents.detail is Some && self.agents.detail->0@ == run
    }

    fn is_detail(&self, run: &str) -> (res: bool)
        ensures
            res == self.shows_detail(run@),
    {
        match &self.agents.detail {
            Some(detail) => text::same(detail.as_str(), run),
            None => false,
        }
    }

    /// The store delivered a page of what a run said. Says whether the view changed.
    pub fn apply_agent_communication(&mut self, run: &String, result: Result<Option<AgentCommunicationPage>, ()>) -> (res: bool)
        requires
            old(self).wf(),
        ensures
            final(self).wf(),
            res == (old(self).shows_detail(run@)
                && old(self).agents.communication_pages@.dom().contains(run@)),
            if res {
                let view = old(self).agents.communication_pages@[run@];
                &&& final(self).communication_shown(*old(self), run@)
                &&& final(self).agents.communication_pages@[run@] == match result {
                    Ok(page) => AgentCommunicationView { loading: false, page, ..view },
                    Err(_) => AgentCommunicationView { loading: false, failed: true, ..view },
                }
            } else {
                *final(self) == *old(self)
            },
    {
        if !self.is_detail(run.as_str()) || !self.agents.communication_pages.contains(run) {
            return false;
        }
        match self.agents.communication_pages.remove(run) {
            Some(view) => {
                let mut view = view;
                view.loading = false;
                match result {
                    Ok(page) => {
                        view.page = page;
                    },
                    Err(_) => {
                        view.failed = true;
                    },
                }
                let ghost now = view;
                self.agents.communication_pages.insert(run.clone(), view);
                assert(self.agents.communication_pages@ =~= old(self).agents.communication_pages@.insert(
                    run@,
                    now,
                ));
                true
            },
            None => false,
        }
    }

    /// Where the page of a run's messages that is asked for begins.
    pub open spec fn run_cursor(self, run: Seq<char>, older: Option<bool>) -> Option<HistoryCursor> {
        let owner = ViewOwner::Agent(self.agents.records@[run].snapshot.conversation_id@, run);
        if older is Some && self.history.auxiliary_pages@.dom().contains(owner) {
            if older->0 {
                self.history.auxiliary_pages@[owner].before
            } else {
                self.history.auxiliary_pages@[owner].after
            }
        } else {
            None
        }
    }

    /// Whether a page of a run's messages is asked for.
    pub open spec fn wants_run_page(self, run: Seq<char>, older: Option<bool>) -> bool {
        &&& self.agents.records@.dom().contains(run)
        &&& !self.agents.details_loading@.dom().contains(run)
        &&& older is Some ==> self.run_cursor(run, older) is Some
    }

    /// What asking for a page of a run's messages does.
    pub open spec fn run_page_requested(self, before: AiWorkspaceEntity, run: Seq<char>, older: Option<bool>, waiter: u64) -> bool {
        let record = before.agents.records@[run];
        if !before.wants_run_page(run, older) {
            self == before
        } else if !before.history.store_open {
            &&& self == (AiWorkspaceEntity {
                agents: AiAgentWorkspace {
                    detail_errors: self.agents.detail_errors,
                    ..before.agents
                },
                ..before
            })
            &&& self.agents.detail_errors@ == before.agents.detail_errors@.insert(run, ())
        } else {
            exists|shown: AiWorkspaceEntity|
                {
                    &&& #[trigger] shown.run_page_awaited(before, run)
                    &&& self.asks_after(
                        shown,
                        waiter,
                        Effect::LoadAgentPage {
                            conversation: record.snapshot.conversation_id@,
                            run,
                            branch: record.message_branch@,
                            record_revision: record.revision,
                            older,
                            cursor: before.run_cursor(run, older),
                            waiter,
                        },
                    )
                }
        }
    }

    /// A page of a run's messages is being read.
    pub open spec fn run_page_awaited(self, before: AiWorkspaceEntity, run: Seq<char>) -> bool {
        &&& self == (AiWorkspaceEntity {
            agents: AiAgentWorkspace {
                details_loading: self.agents.details_loading,
                detail_errors: self.agents.detail_errors,
                detail_tasks: self.agents.detail_tasks,
                ..before.agents
            },
            ..before
        })
        &&& self.agents.details_loading@ == before.agents.details_loading@.insert(run, ())
        &&& self.agents.detail_errors@ == before.agents.detail_errors@.remove(run)
        &&& self.agents.detail_tasks@ == before.agents.detail_tasks@.insert(run, ())
    }

    fn await_run_page(&mut self, run: &String)
        requires
            old(self).wf(),
        ensures
            final(self).wf(),
            final(self).run_page_awaited(*old(self), run@),
    {
        self.agents.details_loading.insert(run.clone(), ());
        self.agents.detail_errors.remove(run);
        self.agents.detail_tasks.insert(run.clone(), ());
    }

    /// Asks the store for a page of a run's messages.
    pub fn load_agent_message_page(&mut self, run: &String, older: Option<bool>, waiter: u64)
        requires
            old(self).wf(),
        ensures
            final(self).wf(),
            final(self).run_page_requested(*old(self), run@, older, waiter),
    {
        let (conversation, branch, record_revision) = match self.agents.records.get(run) {
            Some(record) => (
                record.snapshot.conversation_id.clone(),
                record.message_branch.clone(),
                record.revision,
            ),
            None => {
                return;
            },
        };
        if self.agents.details_loading.contains(run) {
            return;
        }
        let owner = HistoryViewOwner::Agent(conversation.clone(), run.clone());
        let cursor = match older {
            Some(older) => match self.history.auxiliary_pages.get(&owner) {
                Some(page) => if older {
                    duplicate_cursor(&page.before)
                } else {
                    duplicate_cursor(&page.after)
                },
                None => None,
            },
            None => None,
        };
        if older.is_some() && cursor.is_none() {
            return;
        }
        if !self.history.store_open {
            self.agents.detail_errors.insert(run.clone(), ());
            return;
        }
        self.await_run_page(run);
        self.ask_after(
            waiter,
            HistoryEffect::LoadAgentPage {
                conversation,
                run: run.clone(),
                branch,
                record_revision,
                older,
                cursor,
                waiter,
            },
        );
    }

    /// A page of a run's messages is no longer being read.
    pub open spec fn run_page_settled(self, before: AiWorkspaceEntity, run: Seq<char>) -> bool {
        &&& self == (AiWorkspaceEntity {
            agents: AiAgentWorkspace {
                details_loading: self.agents.details_loading,
                detail_tasks: self.agents.detail_tasks,
                ..before.agents
            },
            ..before
        })
        &&& self.agents.details_loading@ == before.agents.details_loading@.remove(run)
        &&& self.agents.detail_tasks@ == before.agents.detail_tasks@.remove(run)
    }

    /// What a page of a run's messages does to the detail view: it is shown, and a run that is over
    /// keeps no messages in memory.
    pub open spec fn run_page_shown(self, before: AiWorkspaceEntity, conversation: Seq<char>, run: Seq<char>, page: MessagePage) -> bool {
        let owner = ViewOwner::Agent(conversation, run);
        &&& self == (AiWorkspaceEntity {
            agents: AiAgentWorkspace { records: self.agents.records, ..before.agents },
            history: AiHistoryState {
                auxiliary_pages: self.history.auxiliary_pages,
                effects: self.history.effects,
                ..before.history
            },
            ..before
        })
        &&& self.history.asked() == if before.agents.detail_lists@.dom().contains(run) {
            before.history.asked().push(
                Effect::ResetRows { rows_of: owner, count: page.messages@.len() as usize },
            )
        } else {
            before.history.asked()
        }
        &&& self.history.auxiliary_pages@ == before.history.auxiliary_pages@.insert(
            owner,
            self.history.auxiliary_pages@[owner],
        )
        &&& exists|known: HistoryPageState|
            {
                &&& match before.view_of(owner) {
                    Some(view) => known == view,
                    None => known.is_blank(),
                }
                &&& #[trigger] run_page(self.history.auxiliary_pages@[owner], known, page)
            }
        &&& self.agents.records@.dom() == before.agents.records@.dom()
        &&& forall|other: Seq<char>|
            before.agents.records@.dom().contains(other) ==> if other == run
                && before.agents.records@[other].snapshot.state.ended() {
                Self::emptied(#[trigger] self.agents.records@[other], before.agents.records@[other])
            } else {
                self.agents.records@[other] == before.agents.records@[other]
            }
    }

    fn empty_ended_run(&mut self, run: &String)
        requires
            old(self).wf(),
        ensures
            final(self).wf(),
            *final(self) == (AiWorkspaceEntity {
                agents: AiAgentWorkspace { records: final(self).agents.records, ..old(self).agents },
                ..*old(self)
            }),
            final(self).agents.records@.dom() == old(self).agents.records@.dom(),
            forall|other: Seq<char>|
                old(self).agents.records@.dom().contains(other) ==> if other == run@
                    && old(self).agents.records@[other].snapshot.state.ended() {
                    Self::emptied(
                        #[trigger] final(self).agents.records@[other],
                        old(self).agents.records@[other],
                    )
                } else {
                    final(self).agents.records@[other] == old(self).agents.records@[other]
                },
    {
        let ended = match self.agents.records.get(run) {
            Some(record) => record.snapshot.state.is_terminal(),
            None => false,
        };
        if ended {
            match self.agents.records.remove(run) {
                Some(record) => {
                    let mut record = record;
                    record.messages.clear();
                    let ghost now = record;
                    self.agents.records.insert(run.clone(), record);
                    assert(self.agents.records@ =~= old(self).agents.records@.insert(run@, now));
                    assert(self.agents.records@.dom() =~= old(self).agents.records@.dom());
                },
                None => {},
            }
        }
    }

    fn show_run_page(&mut self, conversation: String, run: &String, page: MessagePage)
        requires
            old(self).wf(),
        ensures
            final(self).wf(),
            final(self).run_page_shown(*old(self), conversation@, run@, page),
    {
        let owner = HistoryViewOwner::Agent(conversation, run.clone());
        if self.agents.detail_lists.contains(run) {
            let count = page.messages.len();
            let rows_of = owner.duplicate();
            self.history.ask(HistoryEffect::ResetRows { rows_of, count });
        }
        proof {
            reveal(all_pages_wf);
        }
        let mut view = match self.history.auxiliary_pages.remove(&owner) {
            Some(view) => view,
            None => HistoryPageState::new(),
        };
        let ghost known = view;
        take_run_page(&mut view, page);
        let ghost now = view;
        assert(run_page(now, known, page));
        self.history.auxiliary_pages.insert(owner, view);
        assert(self.history.auxiliary_pages@ =~= old(self).history.auxiliary_pages@.insert(
            owner.id(),
            now,
        ));
        self.empty_ended_run(run);
        assert(run_page(
            self.history.auxiliary_pages@[ViewOwner::Agent(conversation@, run@)],
            known,
            page,
        ));
    }

    /// Whether a page of a run's messages is too old: the run changed since it was asked for.
    pub open spec fn run_moved_on(self, delivery: AgentPageDelivery) -> bool {
        &&& self.agents.records@.dom().contains(delivery.run@)
        &&& self.agents.records@[delivery.run@].revision != delivery.record_revision
    }

    /// What a delivered page of a run's messages does.
    pub open spec fn run_page_applied(self, before: AiWorkspaceEntity, delivery: AgentPageDelivery, waiter: u64) -> bool {
        let run = delivery.run@;
        exists|settled: AiWorkspaceEntity|
            {
                &&& #[trigger] settled.run_page_settled(before, run)
                &&& if !before.shows_detail(run) {
                    self == settled
                } else {
                    match delivery.result {
                        Ok(page) => if before.run_moved_on(delivery) {
                            self.run_page_requested(settled, run, None, waiter)
                        } else {
                            self.run_page_shown(settled, delivery.conversation@, run, page)
                        },
                        Err(_) => {
                            &&& self == (AiWorkspaceEntity {
                                agents: AiAgentWorkspace {
                                    detail_errors: self.agents.detail_errors,
                                    ..settled.agents
                                },
                                ..settled
                            })
                            &&& self.agents.detail_errors@ == before.agents.detail_errors@.insert(
                                run,
                                (),
                            )
                        },
                    }
                }
            }
    }

    /// The store delivered a page of a run's messages. Says whether the view changed.
    pub fn apply_agent_message_page(&mut self, delivery: AgentPageDelivery, waiter: u64) -> (res: bool)
        requires
            old(self).wf(),
        ensures
            final(self).wf(),
            final(self).run_page_applied(*old(self), delivery, waiter),
            res == (old(self).shows_detail(delivery.run@) && !(delivery.result is Ok
                && old(self).run_moved_on(delivery))),
    {
        let run = delivery.run;
        self.agents.detail_tasks.remove(&run);
        self.agents.details_loading.remove(&run);
        let ghost settled = *self;
        assert(settled.run_page_settled(*old(self), run@));
        if !self.is_detail(run.as_str()) {
            return false;
        }
        match delivery.result {
            Ok(page) => {
                let moved_on = match self.agents.records.get(&run) {
                    Some(record) => record.revision != delivery.record_revision,
                    None => false,
                };
                if moved_on {
                    self.load_agent_message_page(&run, None, waiter);
                    return false;
                }
                self.show_run_page(delivery.conversation, &run, page);
            },
            Err(_) => {
                self.agents.detail_errors.insert(run, ());
            },
        }
        true
    }

    /// The detail view is that of a run, with nothing read for it yet.
    pub open spec fn detail_opened(self, before: AiWorkspaceEntity, run: String) -> bool {
        &&& self == (AiWorkspaceEntity {
            agents: AiAgentWorkspace {
                detail: Some(run),
                detail_lists: self.agents.detail_lists,
                model_picker_open: false,
                ..before.agents
            },
            ..before
        })
        &&& self.agents.detail_lists@ == before.agents.detail_lists@.insert(run@, ())
    }

    /// Opens the detail view of a run, in place of that of another one.
    pub fn open_agent_detail(&mut self, run: String, talk_waiter: u64, page_waiter: u64)
        requires
            old(self).wf(),
        ensures
            final(self).wf(),
            exists|closed: AiWorkspaceEntity, opened: AiWorkspaceEntity, talking: AiWorkspaceEntity|
                {
                    &&& if old(self).shows_detail(run@) {
                        closed == *old(self)
                    } else {
                        closed.detail_closed(*old(self))
                    }
                    &&& #[trigger] opened.detail_opened(closed, run)
                    &&& #[trigger] talking.communication_requested(opened, run@, None, talk_waiter)
                    &&& final(self).run_page_requested(talking, run@, None, page_waiter)
                },
    {
        if !self.is_detail(run.as_str()) {
            self.close_agent_detail();
        }
        let ghost closed = *self;
        self.agents.detail = Some(run.clone());
        self.agents.detail_lists.insert(run.clone(), ());
        self.agents.model_picker_open = false;
        let ghost opened = *self;
        assert(opened.detail_opened(closed, run));
        self.load_agent_communication(&run, None, talk_waiter);
        let ghost talking = *self;
        assert(talking.communication_requested(opened, run@, None, talk_waiter));
        self.load_agent_message_page(&run, None, page_waiter);
    }
}

} // verus!
