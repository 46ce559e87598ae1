//! The pages of stored messages that windows show.

use vstd::prelude::*;

use crate::ai_state::entity::{
    all_pages_wf, AiHistoryState, AiWorkspaceEntity, Effect, HistoryEffect, HistoryPageState,
    PageDirection,
};
use crate::ai_state::model::{duplicate_cursor, HistoryCursor, MessagePage};
use crate::text;

verus! {

/// A page that the store delivered.
pub struct PageDelivery {
    pub generation: u64,
    pub id: String,
    pub branch: String,
    pub direction: PageDirection,
    pub result: Result<MessagePage, ()>,
}

/// How a page is read from its branch.
#[derive(Clone, Copy, PartialEq, Eq, Structural, Debug)]
pub enum PageRead {
    /// The messages before the cursor, and the newest ones where there is none.
    Before,
    /// The messages around a place.
    At(u64),
    /// The messages after the cursor.
    After,
}

/// The page that the store is asked for.
pub struct PageQuery {
    pub branch: String,
    pub read: PageRead,
}

/// How the page in a direction is read.
pub open spec fn page_read(direction: PageDirection) -> PageRead {
    match direction {
        PageDirection::Initial | PageDirection::Older => PageRead::Before,
        PageDirection::Around(sequence) => PageRead::At(
            if sequence == u64::MAX {
                sequence
            } else {
                (sequence + 1) as u64
            },
        ),
        PageDirection::Newer => PageRead::After,
    }
}

/// The page to read, where there is one: the store has to know the conversation, and a page that
/// continues another has to be of the branch that is shown. `head` is the conversation's branch in
/// the store.
pub fn page_query(head: Option<&str>, direction: PageDirection, expected_branch: &str) -> (res: Result<PageQuery, ()>)
    ensures
        res is Ok <==> head is Some && (direction.fresh() || head->0@ == expected_branch@),
        res is Ok ==> {
            &&& res->Ok_0.branch@ == head->0@
            &&& res->Ok_0.read == page_read(direction)
        },
{
    let branch = match head {
        Some(branch) => branch,
        None => {
            return Err(());
        },
    };
    let read = match direction {
        PageDirection::Initial | PageDirection::Older => PageRead::Before,
        PageDirection::Around(sequence) => PageRead::At(sequence.saturating_add(1)),
        PageDirection::Newer => PageRead::After,
    };
    if !direction.is_fresh() && !text::same(branch, expected_branch) {
        return Err(());
    }
    Ok(PageQuery { branch: branch.to_owned(), read })
}

/// How a page of a run's messages is read; `older` is `None` for the newest one.
pub fn run_page_read(older: Option<bool>) -> (res: PageRead)
    ensures
        res == if older == Some(false) {
            PageRead::After
        } else {
            PageRead::Before
        },
{
    match older {
        Some(false) => PageRead::After,
        _ => PageRead::Before,
    }
}

/// What the store's answer says: the branch that was read and its page, or that reading failed.
pub fn page_delivery(generation: u64, id: String, direction: PageDirection, read: Result<(String, MessagePage), ()>) -> (res: PageDelivery)
    ensures
        res.generation == generation,
        res.id == id,
        res.direction == direction,
        match read {
            Ok((branch, page)) => res.branch == branch && res.result == Result::<MessagePage, ()>::Ok(page),
            Err(_) => res.branch@.len() == 0 && res.result is Err,
        },
{
    match read {
        Ok((branch, page)) => PageDelivery { generation, id, branch, direction, result: Ok(page) },
        Err(_) => PageDelivery {
            generation,
            id,
            branch: String::new(),
            direction,
            result: Err(()),
        },
    }
}

impl AiWorkspaceEntity {
    /// Only the windows, their loads and what is asked of the host differ.
    pub open spec fn paged(self, before: AiWorkspaceEntity) -> bool {
        self == (AiWorkspaceEntity {
            history: AiHistoryState {
                pages: self.history.pages,
                load_running: self.history.load_running,
                page_generation: self.history.page_generation,
                effects: self.history.effects,
                ..before.history
            },
            ..before
        })
    }

    /// The rows above the first message.
    pub open spec fn header_rows(self, page: HistoryPageState) -> int {
        (if page.before is Some {
            1int
        } else {
            0int
        }) + (if self.chat_ui.shows_trim_notice {
            1int
        } else {
            0int
        })
    }

    pub(crate) fn headers(&self, page: &HistoryPageState) -> (res: usize)
        ensures
            res == self.header_rows(*page),
    {
        let first: usize = if page.before.is_some() {
            1
        } else {
            0
        };
        let second: usize = if self.chat_ui.shows_trim_notice {
            1
        } else {
            0
        };
        first + second
    }

    /// The position of the message at the top of the window.
    pub open spec fn top_position(self, page: HistoryPageState) -> int {
        if self.chat_ui.top_item >= self.header_rows(page) {
            self.chat_ui.top_item - self.header_rows(page)
        } else {
            0
        }
    }

    /// The place in the branch of the message at the top of the window.
    pub open spec fn top_sequence(self, page: HistoryPageState) -> Option<u64> {
        match self.active() {
            Some(conversation) => {
                let at = self.top_position(page);
                if at < conversation.messages@.len() {
                    let id = conversation.messages@[at].id@;
                    if page.descriptions@.dom().contains(id) {
                        Some(page.descriptions@[id].sequence)
                    } else {
                        None
                    }
                } else {
                    None
                }
            },
            None => None,
        }
    }

    pub(crate) fn find_top_sequence(&self, page: &HistoryPageState) -> (res: Option<u64>)
        requires
            page.wf(),
        ensures
            res == self.top_sequence(*page),
    {
        let at: usize = self.chat_ui.top_item.saturating_sub(self.headers(page));
        match self.active_conversation() {
            Some(conversation) => {
                if at < conversation.messages.len() {
                    match page.descriptions.get(&conversation.messages[at].id) {
                        Some(entry) => Some(entry.sequence),
                        None => None,
                    }
                } else {
                    None
                }
            },
            None => None,
        }
    }

    /// Loads the first page of a conversation.
    pub fn request_history_conversation(&mut self, id: String)
        requires
            old(self).wf(),
            old(self).history.page_generation < u64::MAX,
        ensures
            final(self).wf(),
            final(self).page_requested(*old(self), id@, PageDirection::Initial),
    {
        self.load_history_page(id, PageDirection::Initial);
    }

    /// Loads the page before or behind the one that is shown.
    pub fn request_history_page(&mut self, id: String, older: bool)
        requires
            old(self).wf(),
            old(self).history.page_generation < u64::MAX,
        ensures
            final(self).wf(),
            final(self).page_requested(
                *old(self),
                id@,
                if older {
                    PageDirection::Older
                } else {
                    PageDirection::Newer
                },
            ),
    {
        self.load_history_page(
            id,
            if older {
                PageDirection::Older
            } else {
                PageDirection::Newer
            },
        );
    }

    /// Whether scrolling may load more of the conversation that is shown: not while the window
    /// follows the end, loads, or has failed to load.
    pub open spec fn may_scroll_load(self, conversation: Seq<char>) -> bool {
        &&& text::opt_view(self.conversation_state.active_conversation_id) == Some(conversation)
        &&& !self.chat_ui.following_tail
        &&& self.history.pages@.dom().contains(conversation)
        &&& !self.history.pages@[conversation].loading
        &&& !self.history.pages@[conversation].failed
    }

    /// A row at an end of the window came into view.
    pub fn request_visible_history_page(&mut self, conversation: String, older: bool)
        requires
            old(self).wf(),
            old(self).history.page_generation < u64::MAX,
        ensures
            final(self).wf(),
            !old(self).may_scroll_load(conversation@) ==> *final(self) == *old(self),
            old(self).may_scroll_load(conversation@) ==> final(self).page_requested(
                *old(self),
                conversation@,
                if older {
                    PageDirection::Older
                } else {
                    PageDirection::Newer
                },
            ),
    {
        let active = match &self.conversation_state.active_conversation_id {
            Some(active) => text::same(active.as_str(), conversation.as_str()),
            None => false,
        };
        if !active || self.chat_ui.following_tail {
            return;
        }
        let idle = match self.history.pages.get(&conversation) {
            Some(page) => !page.loading && !page.failed,
            None => false,
        };
        if idle {
            self.request_history_page(conversation, older);
        }
    }

    /// Loads a conversation's window anew, around what it shows; one that follows the end of the
    /// conversation goes there.
    pub fn refresh_history_page(&mut self, id: String)
        requires
            old(self).wf(),
            old(self).history.page_generation < u64::MAX,
        ensures
            final(self).wf(),
            final(self).page_requested(*old(self), id@, old(self).refresh_direction(id@)),
    {
        let sequence = match self.history.pages.get(&id) {
            Some(page) => {
                proof {
                    reveal(all_pages_wf);
                }
                self.find_top_sequence(page)
            },
            None => None,
        };
        let direction = if self.chat_ui.following_tail {
            PageDirection::Initial
        } else {
            match sequence {
                Some(sequence) => PageDirection::Around(sequence),
                None => PageDirection::Initial,
            }
        };
        self.load_history_page(id, direction);
    }

    /// Which page a refresh asks for.
    pub open spec fn refresh_direction(self, id: Seq<char>) -> PageDirection {
        if self.chat_ui.following_tail || !self.history.pages@.dom().contains(id) {
            PageDirection::Initial
        } else {
            match self.top_sequence(self.history.pages@[id]) {
                Some(sequence) => PageDirection::Around(sequence),
                None => PageDirection::Initial,
            }
        }
    }

    /// Whether a page may be asked for at all: not while quitting or without a store, and a window
    /// does not start over while messages of it wait to be written.
    pub open spec fn may_load_page(self, id: Seq<char>, direction: PageDirection) -> bool {
        &&& !self.history.quitting
        &&& self.history.store_open
        &&& !(direction.fresh() && self.unsaved(id))
    }

    /// Where the page is read from.
    pub open spec fn page_cursor(page: HistoryPageState, direction: PageDirection) -> Option<HistoryCursor> {
        match direction {
            PageDirection::Older => page.before,
            PageDirection::Newer => page.after,
            _ => None,
        }
    }

    /// The state once a conversation has a window.
    pub open spec fn window_opened(self, before: AiWorkspaceEntity, id: Seq<char>) -> bool {
        &&& self == (AiWorkspaceEntity {
            history: AiHistoryState { pages: self.history.pages, ..before.history },
            ..before
        })
        &&& self.history.pages@.dom().contains(id)
        &&& if before.history.pages@.dom().contains(id) {
            self.history.pages == before.history.pages
        } else {
            &&& self.history.pages@ == before.history.pages@.insert(id, self.history.pages@[id])
            &&& self.history.pages@[id].is_blank()
        }
    }

    pub(crate) fn open_window(&mut self, id: &String)
        requires
            old(self).wf(),
        ensures
            final(self).wf(),
            final(self).window_opened(*old(self), id@),
    {
        if !self.history.pages.contains(id) {
            proof {
                reveal(all_pages_wf);
            }
            self.history.pages.insert(id.clone(), HistoryPageState::new());
        }
    }

    /// Whether a window takes the request for a page: it is not loading already, and there is
    /// something to continue from.
    pub open spec fn takes_request(page: HistoryPageState, direction: PageDirection) -> bool {
        direction.fresh() || (!page.loading && Self::page_cursor(page, direction) is Some)
    }

    /// The window while a page is loaded.
    pub open spec fn is_loading_from(page: HistoryPageState, before: HistoryPageState, direction: PageDirection) -> bool {
        &&& page == (HistoryPageState {
            loading: true,
            failed: false,
            body_tasks: page.body_tasks,
            body_errors: page.body_errors,
            ..before
        })
        &&& if direction.fresh() {
            &&& page.body_tasks@ == Map::<Seq<char>, ()>::empty()
            &&& page.body_errors@ == Map::<Seq<char>, ()>::empty()
        } else {
            &&& page.body_tasks == before.body_tasks
            &&& page.body_errors == before.body_errors
        }
    }

    /// What a request for a page does.
    pub open spec fn page_requested(self, before: AiWorkspaceEntity, id: Seq<char>, direction: PageDirection) -> bool {
        if !before.may_load_page(id, direction) {
            self == before
        } else {
            exists|opened: AiWorkspaceEntity|
                {
                    &&& #[trigger] opened.window_opened(before, id)
                    &&& self.page_request_taken(opened, id, direction)
                }
        }
    }

    /// What a request for a page does to a window that is there.
    pub open spec fn page_request_taken(self, opened: AiWorkspaceEntity, id: Seq<char>, direction: PageDirection) -> bool {
        let window = opened.history.pages@[id];
        if !Self::takes_request(window, direction) {
            self == opened
        } else {
            &&& self.paged(opened)
            &&& self.history.load_running
            &&& self.history.page_generation == opened.history.page_generation + 1
            &&& self.history.pages@ == opened.history.pages@.insert(id, self.history.pages@[id])
            &&& Self::is_loading_from(self.history.pages@[id], window, direction)
            &&& self.history.asked() == opened.history.asked().push(
                Effect::LoadPage {
                    generation: self.history.page_generation,
                    conversation: id,
                    direction,
                    cursor: Self::page_cursor(window, direction),
                    expected_branch: opened.history.branch_of(id),
                },
            )
        }
    }

    fn take_page_request(&mut self, id: String, direction: PageDirection)
        requires
            old(self).wf(),
            old(self).history.pages@.dom().contains(id@),
            old(self).history.page_generation < u64::MAX,
        ensures
            final(self).wf(),
            final(self).page_request_taken(*old(self), id@, direction),
    {
        proof {
            reveal(all_pages_wf);
        }
        let fresh = direction.is_fresh();
        let expected_branch = self.history.branch(id.as_str());
        let cursor = match self.history.pages.get(&id) {
            Some(page) => {
                if page.loading && !fresh {
                    return;
                }
                match direction {
                    PageDirection::Older => duplicate_cursor(&page.before),
                    PageDirection::Newer => duplicate_cursor(&page.after),
                    _ => None,
                }
            },
            None => None,
        };
        if !fresh && cursor.is_none() {
            return;
        }
        match self.history.pages.get_mut(&id) {
            Some(page) => {
                if fresh {
                    page.body_tasks.clear();
                    page.body_errors.clear();
                }
                page.loading = true;
                page.failed = false;
            },
            None => {},
        }
        self.history.load_running = true;
        self.history.page_generation += 1;
        let generation = self.history.page_generation;
        self.history.ask(
            HistoryEffect::LoadPage {
                generation,
                conversation: id,
                direction,
                cursor,
                expected_branch,
            },
        );
    }

    /// Asks the store for a page of a conversation.
    pub fn load_history_page(&mut self, id: String, direction: PageDirection)
        requires
            old(self).wf(),
            old(self).history.page_generation < u64::MAX,
        ensures
            final(self).wf(),
            final(self).page_requested(*old(self), id@, direction),
    {
        if self.history.quitting || !self.history.store_open {
            return;
        }
        if direction.is_fresh() && self.history_has_unsaved_messages(id.as_str()) {
            return;
        }
        self.open_window(&id);
        let ghost opened = *self;
        assert(opened.window_opened(*old(self), id@));
        self.take_page_request(id, direction);
        assert(self.page_request_taken(opened, id@, direction));
    }
}

} // verus!
