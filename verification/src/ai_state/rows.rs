//! What rows on screen keep in memory, and where the window comes back to.

use vstd::prelude::*;

use crate::ai::messages::{find_message, message_position};
use crate::ai_state::entity::{
    all_pages_wf, AiHistoryState, AiWorkspaceEntity, ArchiveView, Effect, HistoryEffect,
    HistoryPageState,
};
use crate::ai_state::model::{HistoryViewOwner, ViewOwner};
use crate::table::{Key, Table};

verus! {

impl AiWorkspaceEntity {
    /// Only what is asked of the host differs: one effect more, or none.
    pub open spec fn asks(self, before: AiWorkspaceEntity, effect: Option<Effect>) -> bool {
        &&& self == (AiWorkspaceEntity {
            history: AiHistoryState { effects: self.history.effects, ..before.history },
            ..before
        })
        &&& self.history.asked() == match effect {
            Some(effect) => before.history.asked().push(effect),
            None => before.history.asked(),
        }
    }

    /// The window while a row shows a message. `alive` says whether the decoded message is still
    /// cached.
    pub open spec fn row_retained(page: HistoryPageState, before: HistoryPageState, message: Seq<char>, alive: bool) -> bool {
        &&& page == (HistoryPageState {
            body_leases: page.body_leases,
            visible_bodies: page.visible_bodies,
            body_cleanup_scheduled: true,
            ..before
        })
        &&& page.body_leases@ == if alive && before.bodies@.dom().contains(message) {
            before.body_leases@.insert(message, before.bodies@[message])
        } else {
            before.body_leases@
        }
        &&& page.visible_bodies@ == before.visible_bodies@.insert(message, ())
    }

    /// What drawing a row does.
    pub open spec fn body_retained(self, before: AiWorkspaceEntity, owner: ViewOwner, message: Seq<char>, alive: bool) -> bool {
        match before.view_of(owner) {
            Some(view) => exists|page: HistoryPageState, shown: AiWorkspaceEntity|
                {
                    &&& #[trigger] Self::row_retained(page, view, message, alive)
                    &&& #[trigger] shown.view_changed(before, owner, page)
                    &&& self.asks(
                        shown,
                        if view.body_cleanup_scheduled {
                            None
                        } else {
                            Some(Effect::ReleaseBodies(owner))
                        },
                    )
                },
            None => self == before,
        }
    }

    fn retain_row(page: &mut HistoryPageState, message: String, alive: bool) -> (res: bool)
        requires
            old(page).wf(),
        ensures
            final(page).wf(),
            Self::row_retained(*final(page), *old(page), message@, alive),
            res == old(page).body_cleanup_scheduled,
    {
        if alive {
            match page.bodies.get(&message) {
                Some(body) => {
                    page.body_leases.insert(message.clone(), *body);
                },
                None => {},
            }
        }
        page.visible_bodies.insert(message, ());
        let scheduled = page.body_cleanup_scheduled;
        page.body_cleanup_scheduled = true;
        scheduled
    }

    /// A row shows a message: its body is kept until the row is gone.
    pub fn retain_visible_history_body(&mut self, owner: HistoryViewOwner, message: String, alive: bool)
        requires
            old(self).wf(),
        ensures
            final(self).wf(),
            final(self).body_retained(*old(self), owner.id(), message@, alive),
    {
        match self.take_view(&owner) {
            Some(page) => {
                let ghost view = page;
                let mut page = page;
                let ghost id = message@;
                let scheduled = Self::retain_row(&mut page, message, alive);
                let ghost now = page;
                self.replace_view(&owner, page);
                let ghost shown = *self;
                if !scheduled {
                    self.history.ask(HistoryEffect::ReleaseBodies(owner));
                }
                assert(Self::row_retained(now, view, id, alive));
                assert(shown.view_changed(*old(self), owner.id(), now));
            },
            None => {},
        }
    }

    /// The window once the rows are drawn: it keeps the bodies that a row shows.
    pub open spec fn rows_settled(page: HistoryPageState, before: HistoryPageState) -> bool {
        &&& page == (HistoryPageState {
            body_leases: page.body_leases,
            visible_bodies: page.visible_bodies,
            body_cleanup_scheduled: false,
            ..before
        })
        &&& page.body_leases@ == before.body_leases@.restrict(before.visible_bodies@.dom())
        &&& page.visible_bodies@ == Map::<Seq<char>, ()>::empty()
    }

    fn settle_rows(page: &mut HistoryPageState)
        requires
            old(page).wf(),
        ensures
            final(page).wf(),
            Self::rows_settled(*final(page), *old(page)),
    {
        let mut visible: Table<String, ()> = Table::new();
        std::mem::swap(&mut visible, &mut page.visible_bodies);
        let rows = &visible;
        let keep = |id: &String, _body: &u64| -> (res: bool)
            ensures
                res == rows@.dom().contains(id@),
            { rows.contains(id) };
        let ghost leases = page.body_leases@;
        page.body_leases.retain(
            keep,
            Ghost(|id: Seq<char>, _body: u64| rows@.dom().contains(id)),
        );
        proof {
            assert(page.body_leases@ =~= leases.restrict(visible@.dom()));
        }
        page.body_cleanup_scheduled = false;
    }

    /// Releases the bodies that no row shows any more.
    pub fn release_hidden_history_bodies(&mut self, owner: HistoryViewOwner)
        requires
            old(self).wf(),
        ensures
            final(self).wf(),
            match old(self).view_of(owner.id()) {
                Some(view) => exists|page: HistoryPageState|
                    #[trigger] Self::rows_settled(page, view) && final(self).view_changed(
                        *old(self),
                        owner.id(),
                        page,
                    ),
                None => *final(self) == *old(self),
            },
    {
        match self.take_view(&owner) {
            Some(page) => {
                let ghost view = page;
                let mut page = page;
                Self::settle_rows(&mut page);
                let ghost now = page;
                self.replace_view(&owner, page);
                assert(Self::rows_settled(now, view));
                assert(self.view_changed(*old(self), owner.id(), now));
            },
            None => {},
        }
    }

    /// A window that nothing is read for and that keeps no body alive.
    pub open spec fn page_quieted(page: HistoryPageState, before: HistoryPageState) -> bool {
        &&& page == (HistoryPageState {
            loading: false,
            body_leases: page.body_leases,
            visible_bodies: page.visible_bodies,
            body_tasks: page.body_tasks,
            ..before
        })
        &&& page.body_leases@ == Map::<Seq<char>, u64>::empty()
        &&& page.visible_bodies@ == Map::<Seq<char>, ()>::empty()
        &&& page.body_tasks@ == Map::<Seq<char>, ()>::empty()
    }

    fn quiet_pages(&mut self)
        requires
            old(self).wf(),
        ensures
            final(self).wf(),
            *final(self) == (AiWorkspaceEntity {
                history: AiHistoryState { pages: final(self).history.pages, ..old(self).history },
                ..*old(self)
            }),
            final(self).history.pages@.dom() == old(self).history.pages@.dom(),
            forall|id: Seq<char>|
                old(self).history.pages@.dom().contains(id) ==> Self::page_quieted(
                    #[trigger] final(self).history.pages@[id],
                    old(self).history.pages@[id],
                ),
    {
        let keys = self.history.pages.keys();
        let ghost before = self.history.pages@;
        let mut at: usize = 0;
        proof {
            reveal(all_pages_wf);
        }
        while at < keys.len()
            invariant
                at <= keys.len(),
                self.wf(),
                *self == (AiWorkspaceEntity {
                    history: AiHistoryState { pages: self.history.pages, ..old(self).history },
                    ..*old(self)
                }),
                before == old(self).history.pages@,
                self.history.pages@.dom() == before.dom(),
                forall|i: int| 0 <= i < keys@.len() ==> before.dom().contains((#[trigger] keys@[i])@),
                forall|i: int, j: int|
                    0 <= i < j < keys@.len() ==> (#[trigger] keys@[i])@ != (#[trigger] keys@[j])@,
                forall|i: int|
                    0 <= i < at ==> Self::page_quieted(
                        self.history.pages@[(#[trigger] keys@[i])@],
                        before[keys@[i]@],
                    ),
                forall|i: int|
                    at <= i < keys@.len() ==> self.history.pages@[(#[trigger] keys@[i])@]
                        == before[keys@[i]@],
            decreases keys.len() - at,
        {
            proof {
                reveal(all_pages_wf);
            }
            let ghost prior = self.history.pages@;
            match self.history.pages.remove(&keys[at]) {
                Some(page) => {
                    let mut page = page;
                    page.loading = false;
                    page.body_leases.clear();
                    page.visible_bodies.clear();
                    page.body_tasks.clear();
                    self.history.pages.insert(keys[at].clone(), page);
                    proof {
                        assert(self.history.pages@ =~= prior.insert(keys@[at as int]@, page));
                        assert(self.history.pages@.dom() =~= before.dom());
                        assert forall|i: int| 0 <= i < keys@.len() && i != at implies (#[trigger] keys@[i])@ != keys@[at as int]@ by {
                            if i < at {
                            } else {
                            }
                        }
                    }
                },
                None => {},
            }
            at = at + 1;
        }
        proof {
            assert forall|id: Seq<char>| before.dom().contains(id) implies Self::page_quieted(
                #[trigger] self.history.pages@[id],
                before[id],
            ) by {
                let i = choose|i: int| 0 <= i < keys@.len() && (#[trigger] keys@[i]).id() == id;
                assert(keys@[i]@ == id);
            }
        }
    }

    /// Gives up everything that is being read for windows.
    pub fn cancel_history_page_loads(&mut self)
        requires
            old(self).wf(),
            old(self).history.generation < u64::MAX,
            old(self).history.page_generation < u64::MAX,
        ensures
            final(self).wf(),
            *final(self) == (AiWorkspaceEntity {
                history: AiHistoryState {
                    generation: (old(self).history.generation + 1) as u64,
                    page_generation: (old(self).history.page_generation + 1) as u64,
                    archive_tasks: final(self).history.archive_tasks,
                    archives: final(self).history.archives,
                    auxiliary_pages: final(self).history.auxiliary_pages,
                    agents_load_running: false,
                    load_running: false,
                    pages: final(self).history.pages,
                    ..old(self).history
                },
                ..*old(self)
            }),
            final(self).history.archive_tasks@ == Map::<(Seq<char>, Seq<char>), ()>::empty(),
            final(self).history.archives@ == Map::<(Seq<char>, Seq<char>), ArchiveView>::empty(),
            final(self).history.auxiliary_pages@ == Map::<ViewOwner, HistoryPageState>::empty(),
            final(self).history.pages@.dom() == old(self).history.pages@.dom(),
            forall|id: Seq<char>|
                old(self).history.pages@.dom().contains(id) ==> Self::page_quieted(
                    #[trigger] final(self).history.pages@[id],
                    old(self).history.pages@[id],
                ),
    {
        self.history.generation = self.history.generation + 1;
        self.history.page_generation = self.history.page_generation + 1;
        self.history.archive_tasks.clear();
        self.history.archives.clear();
        self.history.auxiliary_pages.clear();
        self.history.agents_load_running = false;
        self.history.load_running = false;
        proof {
            reveal(all_pages_wf);
        }
        self.quiet_pages();
    }

    /// Where the window of a conversation comes back to: the row of the anchor, or the last one
    /// where it is gone.
    pub open spec fn anchor_row(self, page: HistoryPageState, anchor: Seq<char>) -> int {
        let messages = self.active()->0.messages@;
        let at = message_position(messages, anchor);
        self.header_rows(page) + if at < messages.len() {
            at
        } else if messages.len() > 0 {
            messages.len() - 1
        } else {
            0
        }
    }

    /// What coming back to the anchor does.
    pub open spec fn anchor_restored(self, before: AiWorkspaceEntity, id: Seq<char>) -> bool {
        let page = before.history.pages@[id];
        if !before.history.pages@.dom().contains(id) || page.anchor is None {
            self == before
        } else {
            exists|shown: AiWorkspaceEntity|
                {
                    &&& #[trigger] shown.view_changed(
                        before,
                        ViewOwner::Main(id),
                        HistoryPageState { anchor: None, ..page },
                    )
                    &&& match page.anchor {
                        Some((anchor, offset)) => self.asks(
                            shown,
                            if before.active() is Some {
                                Some(
                                    Effect::ScrollTo {
                                        item: before.anchor_row(page, anchor@) as usize,
                                        offset,
                                    },
                                )
                            } else {
                                None
                            },
                        ),
                        None => false,
                    }
                }
        }
    }

    /// Scrolls back to the row that the window was at.
    pub fn restore_history_scroll_anchor(&mut self, id: &str)
        requires
            old(self).wf(),
            old(self).active() is Some ==> old(self).active()->0.messages@.len() + 2 <= usize::MAX,
        ensures
            final(self).wf(),
            final(self).anchor_restored(*old(self), id@),
    {
        let owner = HistoryViewOwner::Main(id.to_owned());
        match self.history_view(&owner) {
            Some(page) => {
                if page.anchor.is_none() {
                    return;
                }
            },
            None => {
                return;
            },
        }
        match self.take_view(&owner) {
            Some(page) => {
                let ghost view = page;
                let mut page = page;
                let headers = self.headers(&page);
                let mut anchor: Option<(String, u64)> = None;
                std::mem::swap(&mut anchor, &mut page.anchor);
                let ghost now = page;
                self.replace_view(&owner, page);
                let ghost shown = *self;
                assert(now == (HistoryPageState { anchor: None, ..view }));
                assert(shown.view_changed(*old(self), ViewOwner::Main(id@), now));
                assert(shown.active() == old(self).active());
                match anchor {
                    Some((row, offset)) => {
                        let item: Option<usize> = match self.active_conversation() {
                            Some(conversation) => Some(
                                headers + match find_message(&conversation.messages, row.as_str()) {
                                    Some(at) => at,
                                    None => conversation.messages.len().saturating_sub(1),
                                },
                            ),
                            None => None,
                        };
                        match item {
                            Some(item) => {
                                self.history.ask(HistoryEffect::ScrollTo { item, offset });
                            },
                            None => {},
                        }
                    },
                    None => {},
                }
            },
            None => {},
        }
    }
}

} // verus!
