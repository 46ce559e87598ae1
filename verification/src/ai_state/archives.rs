//! The stored messages that a summary stands for.

use vstd::prelude::*;

use crate::ai_state::entity::{
    all_pages_wf, AiHistoryState, AiWorkspaceEntity, ArchiveView, Effect, HistoryEffect,
    HistoryPageState, HistoryRange,
};
use crate::ai_state::model::{
    duplicate_cursor, HistoryCursor, HistoryViewOwner, MessageDescriptor, MessagePage, ViewOwner,
};
use crate::ai_state::window::{take_in, taken_in};

verus! {

/// A page of an archive that the store delivered.
pub struct ArchiveDelivery {
    pub generation: u64,
    pub revision: u64,
    pub conversation: String,
    pub message: String,
    pub range: HistoryRange,
    pub result: Result<MessagePage, ()>,
}

/// A page that begins where the last of the given cursors says.
pub open spec fn last_cursor(cursors: Seq<Option<HistoryCursor>>) -> Option<HistoryCursor> {
    if cursors.len() == 0 {
        None
    } else {
        cursors.last()
    }
}

/// The window of an archive once a page of it came in.
pub open spec fn archive_page(page: HistoryPageState, branch: Seq<char>, messages: Seq<MessageDescriptor>) -> bool {
    exists|blank: HistoryPageState|
        {
            &&& #[trigger] blank.is_blank()
            &&& page == (HistoryPageState {
                branch: page.branch,
                descriptions: page.descriptions,
                ..blank
            })
            &&& page.branch@ == branch
            &&& page.descriptions@ == taken_in(Map::empty(), messages)
        }
}

fn open_archive_page(branch: &String, messages: &Vec<MessageDescriptor>) -> (res: HistoryPageState)
    ensures
        res.wf(),
        archive_page(res, branch@, messages@),
{
    let mut page = HistoryPageState::new();
    let ghost blank = page;
    assert(blank.is_blank());
    page.branch = branch.clone();
    let mut copies: Vec<MessageDescriptor> = Vec::new();
    let mut at: usize = 0;
    while at < messages.len()
        invariant
            at <= messages.len(),
            copies@ =~= messages@.take(at as int),
        decreases messages.len() - at,
    {
        copies.push(messages[at].duplicate());
        at = at + 1;
    }
    assert(copies@ =~= messages@);
    take_in(&mut page.descriptions, copies);
    page
}

impl AiWorkspaceEntity {
    /// An archive's view while a page of it is read.
    pub open spec fn archive_awaited(view: ArchiveView) -> ArchiveView {
        ArchiveView {
            loading: true,
            failed: false,
            revision: (view.revision + 1) as u64,
            ..view
        }
    }

    /// What asking for a page of an archive does.
    pub open spec fn archive_requested(self, before: AiWorkspaceEntity, key: (Seq<char>, Seq<char>), waiter: u64) -> bool {
        let (conversation, message) = key;
        let view = before.history.archives@[key];
        if !before.history.store_open || !before.history.archives@.dom().contains(key) {
            self == before
        } else {
            exists|shown: AiWorkspaceEntity, barred: AiWorkspaceEntity|
                {
                    &&& shown == (AiWorkspaceEntity {
                        history: AiHistoryState {
                            archives: shown.history.archives,
                            ..before.history
                        },
                        ..before
                    })
                    &&& shown.history.archives@ == before.history.archives@.insert(
                        key,
                        Self::archive_awaited(view),
                    )
                    &&& #[trigger] barred.barrier_set(shown, waiter)
                    &&& self == (AiWorkspaceEntity {
                        history: AiHistoryState {
                            archive_tasks: self.history.archive_tasks,
                            effects: self.history.effects,
                            ..barred.history
                        },
                        ..barred
                    })
                    &&& self.history.archive_tasks@ == before.history.archive_tasks@.insert(key, ())
                    &&& self.history.asked() == barred.history.asked().push(
                        Effect::LoadArchive {
                            generation: before.history.generation,
                            revision: (view.revision + 1) as u64,
                            conversation,
                            message,
                            range: view.range@,
                            before: last_cursor(view.cursors@),
                            waiter,
                        },
                    )
                }
        }
    }

    fn load_history_archive(&mut self, conversation: String, message: String, waiter: u64)
        requires
            old(self).wf(),
            old(self).history.archives@.dom().contains((conversation@, message@)) ==> old(
                self,
            ).history.archives@[(conversation@, message@)].revision < u64::MAX,
        ensures
            final(self).wf(),
            final(self).archive_requested(*old(self), (conversation@, message@), waiter),
    {
        if !self.history.store_open {
            return;
        }
        let key = (conversation.clone(), message.clone());
        if !self.history.archives.contains(&key) {
            return;
        }
        match self.history.archives.remove(&key) {
            Some(view) => {
                let ghost known = view;
                let mut view = view;
                view.loading = true;
                view.failed = false;
                view.revision = view.revision + 1;
                let revision = view.revision;
                let before = if view.cursors.len() == 0 {
                    None
                } else {
                    duplicate_cursor(&view.cursors[view.cursors.len() - 1])
                };
                let range = view.range.duplicate();
                let generation = self.history.generation;
                let ghost awaited = view;
                self.history.archives.insert(key, view);
                let ghost shown = *self;
                assert(shown.history.archives@ =~= old(self).history.archives@.insert(
                    (conversation@, message@),
                    Self::archive_awaited(known),
                ));
                self.history_barrier(waiter);
                let ghost barred = *self;
                assert(barred.barrier_set(shown, waiter));
                self.history.archive_tasks.insert((conversation.clone(), message.clone()), ());
                self.history.ask(
                    HistoryEffect::LoadArchive {
                        generation,
                        revision,
                        conversation,
                        message,
                        range,
                        before,
                        waiter,
                    },
                );
            },
            None => {},
        }
    }

    /// Whether an archive is shown for a range.
    pub open spec fn shows_archive(self, key: (Seq<char>, Seq<char>), range: (Seq<char>, u64, u64)) -> bool {
        &&& self.history.archives@.dom().contains(key)
        &&& self.history.archives@[key].expanded
        &&& self.history.archives@[key].range@ == range
    }

    /// What closing an archive does.
    pub open spec fn archive_closed(self, before: AiWorkspaceEntity, key: (Seq<char>, Seq<char>)) -> bool {
        let (conversation, message) = key;
        let view = before.history.archives@[key];
        let now = self.history.archives@[key];
        &&& self == (AiWorkspaceEntity {
            history: AiHistoryState {
                archives: self.history.archives,
                archive_tasks: self.history.archive_tasks,
                auxiliary_pages: self.history.auxiliary_pages,
                ..before.history
            },
            ..before
        })
        &&& self.history.archives@ == before.history.archives@.insert(key, now)
        &&& now == (ArchiveView {
            expanded: false,
            messages: now.messages,
            revision: (view.revision + 1) as u64,
            ..view
        })
        &&& now.messages@.len() == 0
        &&& self.history.archive_tasks@ == before.history.archive_tasks@.remove(key)
        &&& self.history.auxiliary_pages@ == before.history.auxiliary_pages@.remove(
            ViewOwner::Archive(conversation, message),
        )
    }

    fn close_archive(&mut self, conversation: String, message: String)
        requires
            old(self).wf(),
            old(self).history.archives@.dom().contains((conversation@, message@)),
            old(self).history.archives@[(conversation@, message@)].revision < u64::MAX,
        ensures
            final(self).wf(),
            final(self).archive_closed(*old(self), (conversation@, message@)),
    {
        let key = (conversation.clone(), message.clone());
        proof {
            reveal(all_pages_wf);
        }
        match self.history.archives.remove(&key) {
            Some(view) => {
                let mut view = view;
                view.expanded = false;
                view.messages.clear();
                view.revision = view.revision + 1;
                let ghost now = view;
                self.history.archive_tasks.remove(&key);
                self.history.archives.insert(key, view);
                assert(self.history.archives@ =~= old(self).history.archives@.insert(
                    (conversation@, message@),
                    now,
                ));
                self.history.auxiliary_pages.remove(&HistoryViewOwner::Archive(conversation, message));
            },
            None => {},
        }
    }

    /// An archive that has just been opened.
    pub open spec fn is_fresh_archive(view: ArchiveView, range: (Seq<char>, u64, u64)) -> bool {
        &&& view.range@ == range
        &&& view.messages@.len() == 0
        &&& view.before is None
        &&& view.expanded
        &&& !view.loading
        &&& !view.failed
        &&& view.revision == 1
        &&& view.cursors@ == seq![None::<HistoryCursor>]
    }

    /// What opening an archive does: a view from the newest page on, and a request for that page.
    pub open spec fn archive_opened(
        self,
        before: AiWorkspaceEntity,
        key: (Seq<char>, Seq<char>),
        range: (Seq<char>, u64, u64),
        waiter: u64,
    ) -> bool {
        exists|opened: AiWorkspaceEntity|
            {
                &&& opened == (AiWorkspaceEntity {
                    history: AiHistoryState {
                        archives: opened.history.archives,
                        ..before.history
                    },
                    ..before
                })
                &&& opened.history.archives@ == before.history.archives@.insert(
                    key,
                    opened.history.archives@[key],
                )
                &&& Self::is_fresh_archive(opened.history.archives@[key], range)
                &&& #[trigger] self.archive_requested(opened, key, waiter)
            }
    }

    /// Opens the archive that a message stands for, or closes it.
    pub fn toggle_history_archive(&mut self, conversation: String, message: String, range: HistoryRange, waiter: u64)
        requires
            old(self).wf(),
            old(self).shows_archive((conversation@, message@), range@) ==> old(
                self,
            ).history.archives@[(conversation@, message@)].revision < u64::MAX,
        ensures
            final(self).wf(),
            if old(self).shows_archive((conversation@, message@), range@) {
                final(self).archive_closed(*old(self), (conversation@, message@))
            } else {
                final(self).archive_opened(*old(self), (conversation@, message@), range@, waiter)
            },
    {
        let key = (conversation.clone(), message.clone());
        let shown = match self.history.archives.get(&key) {
            Some(view) => view.expanded && view.range.same(&range),
            None => false,
        };
        if shown {
            self.close_archive(conversation, message);
            return;
        }
        let mut cursors: Vec<Option<HistoryCursor>> = Vec::new();
        cursors.push(None);
        let ghost wanted = range@;
        self.history.archives.insert(
            key,
            ArchiveView {
                range,
                messages: Vec::new(),
                before: None,
                expanded: true,
                loading: false,
                failed: false,
                revision: 1,
                cursors,
            },
        );
        let ghost opened = *self;
        assert(opened.history.archives@[(conversation@, message@)].cursors@ =~= seq![
            None::<HistoryCursor>,
        ]);
        self.load_history_archive(conversation, message, waiter);
        assert(self.archive_requested(opened, (conversation@, message@), waiter));
    }

    /// The pages that lead to an older page, or back from it; nothing where there is no such page.
    pub open spec fn turned(view: ArchiveView, older: bool) -> Option<Seq<Option<HistoryCursor>>> {
        if view.loading {
            None
        } else if older {
            match view.before {
                Some(before) => Some(view.cursors@.push(Some(before))),
                None => None,
            }
        } else if view.cursors@.len() > 1 {
            Some(view.cursors@.drop_last())
        } else {
            None
        }
    }

    /// What turning a page of an archive does.
    pub open spec fn archive_turned(self, before: AiWorkspaceEntity, key: (Seq<char>, Seq<char>), older: bool, waiter: u64) -> bool {
        let view = before.history.archives@[key];
        if !before.history.archives@.dom().contains(key) || Self::turned(view, older) is None {
            self == before
        } else {
            exists|turned: AiWorkspaceEntity|
                {
                    let now = turned.history.archives@[key];
                    &&& turned == (AiWorkspaceEntity {
                        history: AiHistoryState {
                            archives: turned.history.archives,
                            ..before.history
                        },
                        ..before
                    })
                    &&& turned.history.archives@ == before.history.archives@.insert(key, now)
                    &&& now == (ArchiveView { cursors: now.cursors, ..view })
                    &&& Some(now.cursors@) == Self::turned(view, older)
                    &&& #[trigger] self.archive_requested(turned, key, waiter)
                }
        }
    }

    fn turn_archive(&mut self, key: &(String, String), older: bool)
        requires
            old(self).wf(),
            old(self).history.archives@.dom().contains((key.0@, key.1@)),
            Self::turned(old(self).history.archives@[(key.0@, key.1@)], older) is Some,
        ensures
            final(self).wf(),
            *final(self) == (AiWorkspaceEntity {
                history: AiHistoryState { archives: final(self).history.archives, ..old(self).history },
                ..*old(self)
            }),
            ({
                let view = old(self).history.archives@[(key.0@, key.1@)];
                let now = final(self).history.archives@[(key.0@, key.1@)];
                &&& final(self).history.archives@ == old(self).history.archives@.insert(
                    (key.0@, key.1@),
                    now,
                )
                &&& now == (ArchiveView { cursors: now.cursors, ..view })
                &&& Some(now.cursors@) == Self::turned(view, older)
            }),
    {
        match self.history.archives.remove(key) {
            Some(view) => {
                let ghost known = view;
                let mut view = view;
                if older {
                    let before = duplicate_cursor(&view.before);
                    view.cursors.push(before);
                } else {
                    view.cursors.pop();
                }
                let ghost now = view;
                self.history.archives.insert((key.0.clone(), key.1.clone()), view);
                assert(self.history.archives@ =~= old(self).history.archives@.insert(
                    (key.0@, key.1@),
                    now,
                ));
                assert(Some(now.cursors@) == Self::turned(known, older));
            },
            None => {},
        }
    }

    /// Shows an older page of an archive, or the one before it.
    pub fn page_history_archive(&mut self, conversation: String, message: String, older: bool, waiter: u64)
        requires
            old(self).wf(),
            old(self).history.archives@.dom().contains((conversation@, message@)) ==> old(
                self,
            ).history.archives@[(conversation@, message@)].revision < u64::MAX,
        ensures
            final(self).wf(),
            final(self).archive_turned(*old(self), (conversation@, message@), older, waiter),
    {
        let key = (conversation.clone(), message.clone());
        match self.history.archives.get(&key) {
            Some(view) => {
                if view.loading {
                    return;
                }
                if older {
                    if view.before.is_none() {
                        return;
                    }
                } else if view.cursors.len() <= 1 {
                    return;
                }
            },
            None => {
                return;
            },
        }
        self.turn_archive(&key, older);
        let ghost turned = *self;
        self.load_history_archive(conversation, message, waiter);
        assert(self.archive_requested(turned, (conversation@, message@), waiter));
    }

    /// Whether a delivered page of an archive is the one that was last asked for.
    pub open spec fn awaits_archive(self, delivery: ArchiveDelivery) -> bool {
        let key = (delivery.conversation@, delivery.message@);
        &&& delivery.generation == self.history.generation
        &&& self.shows_archive(key, delivery.range@)
        &&& self.history.archives@[key].revision == delivery.revision
    }

    /// What a page of an archive that was awaited does.
    pub open spec fn archive_applied(self, before: AiWorkspaceEntity, delivery: ArchiveDelivery) -> bool {
        let key = (delivery.conversation@, delivery.message@);
        let owner = ViewOwner::Archive(delivery.conversation@, delivery.message@);
        let view = before.history.archives@[key];
        let now = self.history.archives@[key];
        let next = ArchiveView { loading: false, revision: (view.revision + 1) as u64, ..view };
        &&& self == (AiWorkspaceEntity {
            history: AiHistoryState {
                archives: self.history.archives,
                archive_tasks: self.history.archive_tasks,
                auxiliary_pages: self.history.auxiliary_pages,
                effects: self.history.effects,
                ..before.history
            },
            ..before
        })
        &&& self.history.archives@ == before.history.archives@.insert(key, now)
        &&& self.history.archive_tasks@ == before.history.archive_tasks@.remove(key)
        &&& match delivery.result {
            Ok(page) => {
                &&& now == (ArchiveView { messages: page.messages, before: page.before, ..next })
                &&& self.history.auxiliary_pages@ == before.history.auxiliary_pages@.insert(
                    owner,
                    self.history.auxiliary_pages@[owner],
                )
                &&& archive_page(
                    self.history.auxiliary_pages@[owner],
                    delivery.range.branch_id@,
                    page.messages@,
                )
                &&& self.history.asked() == before.history.asked().push(
                    Effect::ResetRows { rows_of: owner, count: page.messages@.len() as usize },
                )
            },
            Err(_) => {
                &&& now == (ArchiveView { failed: true, ..next })
                &&& self.history.auxiliary_pages == before.history.auxiliary_pages
                &&& self.history.effects == before.history.effects
            },
        }
    }

    fn take_archive(&mut self, delivery: ArchiveDelivery)
        requires
            old(self).wf(),
            old(self).awaits_archive(delivery),
            delivery.revision < u64::MAX,
        ensures
            final(self).wf(),
            final(self).archive_applied(*old(self), delivery),
    {
        let key = (delivery.conversation.clone(), delivery.message.clone());
        let ghost name = (delivery.conversation@, delivery.message@);
        proof {
            reveal(all_pages_wf);
        }
        self.history.archive_tasks.remove(&key);
        match self.history.archives.remove(&key) {
            Some(view) => {
                let mut view = view;
                view.loading = false;
                view.revision = view.revision + 1;
                match delivery.result {
                    Ok(page) => {
                        let rows_of = HistoryViewOwner::Archive(
                            delivery.conversation.clone(),
                            delivery.message.clone(),
                        );
                        let count = page.messages.len();
                        let state = open_archive_page(&delivery.range.branch_id, &page.messages);
                        self.history.auxiliary_pages.insert(
                            HistoryViewOwner::Archive(delivery.conversation, delivery.message),
                            state,
                        );
                        view.messages = page.messages;
                        view.before = page.before;
                        self.history.ask(HistoryEffect::ResetRows { rows_of, count });
                    },
                    Err(_) => {
                        view.failed = true;
                    },
                }
                let ghost now = view;
                self.history.archives.insert(key, view);
                assert(self.history.archives@ =~= old(self).history.archives@.insert(name, now));
            },
            None => {},
        }
    }

    /// The store delivered a page of an archive.
    pub fn apply_history_archive(&mut self, delivery: ArchiveDelivery)
        requires
            old(self).wf(),
            delivery.revision < u64::MAX,
        ensures
            final(self).wf(),
            !old(self).awaits_archive(delivery) ==> *final(self) == *old(self),
            old(self).awaits_archive(delivery) ==> final(self).archive_applied(*old(self), delivery),
    {
        if delivery.generation != self.history.generation {
            return;
        }
        let key = (delivery.conversation.clone(), delivery.message.clone());
        match self.history.archives.get(&key) {
            Some(view) => {
                if !view.expanded || !view.range.same(&delivery.range) || view.revision
                    != delivery.revision {
                    return;
                }
            },
            None => {
                return;
            },
        }
        self.take_archive(delivery);
    }
}

/// Closing an archive makes every page of it that is still under way too old.
pub proof fn law_closed_archives_take_no_pages(
    before: AiWorkspaceEntity,
    closed: AiWorkspaceEntity,
    delivery: ArchiveDelivery,
)
    requires
        closed.archive_closed(before, (delivery.conversation@, delivery.message@)),
    ensures
        !closed.awaits_archive(delivery),
{
}

/// Turning to an older page adds the place where it ends to the pages that lead there; turning back
/// drops it again, unless the page is the first. Where there is no such page, or one is still being
/// loaded, or the archive is not shown, nothing changes. There is always a page to lead to.
pub proof fn law_archive_pages_turn_both_ways(
    before: AiWorkspaceEntity,
    after: AiWorkspaceEntity,
    key: (Seq<char>, Seq<char>),
    older: bool,
    waiter: u64,
)
    requires
        after.archive_turned(before, key, older, waiter),
    ensures
        !before.history.archives@.dom().contains(key) ==> after == before,
        before.history.archives@.dom().contains(key) ==> {
            let view = before.history.archives@[key];
            let cursors = after.history.archives@[key].cursors@;
            &&& view.loading ==> after == before
            &&& older && view.before is None ==> after == before
            &&& !older && view.cursors@.len() <= 1 ==> after == before
            &&& !view.loading && older && view.before is Some ==> cursors == view.cursors@.push(
                view.before,
            )
            &&& !view.loading && !older && view.cursors@.len() > 1 ==> cursors
                == view.cursors@.drop_last()
            &&& view.cursors@.len() > 0 ==> cursors.len() > 0
        },
{
}

/// Turning to an older page of an archive and, once it has come, back again leads through the same
/// pages as before.
pub proof fn law_turning_back_undoes_turning(
    before: AiWorkspaceEntity,
    turned: AiWorkspaceEntity,
    shown: AiWorkspaceEntity,
    back: AiWorkspaceEntity,
    delivery: ArchiveDelivery,
    waiter: u64,
    second_waiter: u64,
)
    requires
        ({
            let key = (delivery.conversation@, delivery.message@);
            &&& before.history.archives@.dom().contains(key)
            &&& before.history.archives@[key].cursors@.len() > 0
            &&& AiWorkspaceEntity::turned(before.history.archives@[key], true) is Some
            &&& turned.archive_turned(before, key, true, waiter)
            &&& shown.archive_applied(turned, delivery)
            &&& back.archive_turned(shown, key, false, second_waiter)
        }),
    ensures
        ({
            let key = (delivery.conversation@, delivery.message@);
            back.history.archives@[key].cursors@ == before.history.archives@[key].cursors@
        }),
{
    let key = (delivery.conversation@, delivery.message@);
    law_archive_pages_turn_both_ways(before, turned, key, true, waiter);
    law_archive_pages_turn_both_ways(shown, back, key, false, second_waiter);
    let cursors = before.history.archives@[key].cursors@;
    assert(cursors.push(before.history.archives@[key].before).drop_last() =~= cursors);
}

} // verus!
