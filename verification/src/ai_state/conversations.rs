//! The lists of conversations, page by page.

use vstd::prelude::*;

use crate::ai_state::entity::{
    list_cursor_view, AiHistoryState, AiWorkspaceEntity, ConversationListPage, Effect,
    HistoryEffect,
};
use crate::ai_state::model::{
    find_conversation, has_conversation, AiConversation, ConversationHead, ConversationState,
};

verus! {

/// How many conversations a page lists.
pub const CONVERSATION_PAGE_SIZE: usize = 50;

/// The part of an answer that is shown. One more than fits is asked for, to know whether there are
/// more.
pub open spec fn page_of(heads: Seq<ConversationHead>) -> Seq<ConversationHead> {
    if heads.len() > CONVERSATION_PAGE_SIZE {
        heads.take(CONVERSATION_PAGE_SIZE as int)
    } else {
        heads
    }
}

/// Conversations in memory, and the branch of each that is shown.
pub type Listing = (Seq<AiConversation>, Map<Seq<char>, String>);

/// Whether a conversation that the store lists is put into memory: it may have been deleted, or be
/// there already, with changes that the store does not know.
pub open spec fn is_news(conversations: Seq<AiConversation>, deleted: Set<Seq<char>>, id: Seq<char>) -> bool {
    !deleted.contains(id) && !has_conversation(conversations, id)
}

/// What a page adds to the conversations in memory.
pub open spec fn listed(before: Listing, deleted: Set<Seq<char>>, heads: Seq<ConversationHead>) -> Listing
    decreases heads.len(),
{
    if heads.len() == 0 {
        before
    } else {
        let earlier = listed(before, deleted, heads.drop_last());
        let head = heads.last();
        if is_news(earlier.0, deleted, head.conversation.id@) {
            (
                earlier.0.push(head.conversation),
                earlier.1.insert(head.conversation.id@, head.active_branch),
            )
        } else {
            earlier
        }
    }
}

/// No two conversations have the same name.
pub open spec fn named_apart(conversations: Seq<AiConversation>) -> bool {
    forall|i: int, j: int|
        0 <= i < j < conversations.len() ==> (#[trigger] conversations[i]).id@ != (
        #[trigger] conversations[j]).id@
}

/// A page never puts a conversation into memory twice.
pub proof fn law_conversations_are_listed_once(before: Listing, deleted: Set<Seq<char>>, heads: Seq<ConversationHead>)
    requires
        named_apart(before.0),
    ensures
        named_apart(listed(before, deleted, heads).0),
    decreases heads.len(),
{
    if heads.len() > 0 {
        law_conversations_are_listed_once(before, deleted, heads.drop_last());
    }
}

/// A page leaves what is in memory as it is, and brings back nothing that was deleted.
pub proof fn law_pages_respect_local_changes(before: Listing, deleted: Set<Seq<char>>, heads: Seq<ConversationHead>)
    ensures
        before.0.len() <= listed(before, deleted, heads).0.len(),
        listed(before, deleted, heads).0.take(before.0.len() as int) == before.0,
        forall|i: int|
            before.0.len() <= i < listed(before, deleted, heads).0.len() ==> !deleted.contains(
                (#[trigger] listed(before, deleted, heads).0[i]).id@,
            ),
    decreases heads.len(),
{
    if heads.len() > 0 {
        law_pages_respect_local_changes(before, deleted, heads.drop_last());
        let earlier = listed(before, deleted, heads.drop_last());
        let now = listed(before, deleted, heads);
        assert forall|i: int| before.0.len() <= i < now.0.len() implies !deleted.contains(
            (#[trigger] now.0[i]).id@,
        ) by {
            if i < earlier.0.len() {
                assert(now.0[i] == earlier.0[i]);
            }
        }
        assert(now.0.take(before.0.len() as int) =~= earlier.0.take(before.0.len() as int));
    } else {
        assert(before.0.take(before.0.len() as int) =~= before.0);
    }
}

impl ConversationListPage {
    /// The list after an answer of the store.
    pub open spec fn advanced(self, before: ConversationListPage, heads: Seq<ConversationHead>) -> bool {
        &&& self == (ConversationListPage {
            initialized: true,
            failed: false,
            has_more: heads.len() > CONVERSATION_PAGE_SIZE,
            cursor: self.cursor,
            ..before
        })
        &&& if heads.len() == 0 {
            self.cursor == before.cursor
        } else {
            let last = page_of(heads).last().conversation;
            list_cursor_view(self.cursor) == Some((last.updated_at_ms, last.id@))
        }
    }

    pub fn advance(&mut self, heads: &Vec<ConversationHead>)
        ensures
            final(self).advanced(*old(self), heads@),
    {
        self.initialized = true;
        self.failed = false;
        self.has_more = heads.len() > CONVERSATION_PAGE_SIZE;
        let shown: usize = if heads.len() > CONVERSATION_PAGE_SIZE {
            CONVERSATION_PAGE_SIZE
        } else {
            heads.len()
        };
        if shown > 0 {
            let head = &heads[shown - 1];
            self.cursor = Some((head.conversation.updated_at_ms, head.conversation.id.clone()));
        }
    }
}

impl AiWorkspaceEntity {
    /// The list of the current conversations, or that of the archived ones.
    pub open spec fn list_page(self, archived: bool) -> ConversationListPage {
        if archived {
            self.history.archived_list
        } else {
            self.history.current_list
        }
    }

    pub fn conversation_list_page(&self, archived: bool) -> (res: &ConversationListPage)
        ensures
            *res == self.list_page(archived),
    {
        if archived {
            &self.history.archived_list
        } else {
            &self.history.current_list
        }
    }

    /// The state with one of the lists replaced.
    pub open spec fn with_list(self, archived: bool, page: ConversationListPage) -> AiWorkspaceEntity {
        AiWorkspaceEntity {
            history: AiHistoryState {
                current_list: if archived {
                    self.history.current_list
                } else {
                    page
                },
                archived_list: if archived {
                    page
                } else {
                    self.history.archived_list
                },
                ..self.history
            },
            ..self
        }
    }

    /// Whether a page of a list is asked for: there is more, and none is under way.
    pub open spec fn wants_list(self, archived: bool) -> bool {
        let page = self.list_page(archived);
        &&& self.history.store_open
        &&& !page.running
        &&& !page.initialized || page.has_more
        &&& !self.history.quitting
    }

    /// What asking for a page of a list does.
    pub open spec fn list_requested(self, before: AiWorkspaceEntity, archived: bool) -> bool {
        if before.wants_list(archived) {
            let page = before.list_page(archived);
            let asked = before.with_list(
                archived,
                ConversationListPage { failed: false, running: true, ..page },
            );
            &&& self == (AiWorkspaceEntity {
                history: AiHistoryState { effects: self.history.effects, ..asked.history },
                ..asked
            })
            &&& self.history.asked() == before.history.asked().push(
                Effect::LoadConversations {
                    generation: before.history.generation,
                    epoch: before.history.conversation_list_epoch,
                    archived,
                    list_cursor: list_cursor_view(page.cursor),
                },
            )
        } else {
            self == before
        }
    }

    /// Asks the store for the next page of a list.
    pub fn request_conversation_list_page(&mut self, archived: bool)
        requires
            old(self).wf(),
        ensures
            final(self).wf(),
            final(self).list_requested(*old(self), archived),
    {
        if !self.history.store_open || self.history.quitting {
            return;
        }
        let page = self.conversation_list_page(archived);
        if page.loading() || (page.initialized && !page.has_more) {
            return;
        }
        let list_cursor = match &page.cursor {
            Some((updated, id)) => Some((*updated, id.clone())),
            None => None,
        };
        if archived {
            self.history.archived_list.failed = false;
            self.history.archived_list.running = true;
        } else {
            self.history.current_list.failed = false;
            self.history.current_list.running = true;
        }
        let generation = self.history.generation;
        let epoch = self.history.conversation_list_epoch;
        self.history.ask(
            HistoryEffect::LoadConversations { generation, epoch, archived, list_cursor },
        );
    }

    /// The lists after the store was opened.
    pub open spec fn lists_initialized(self, before: AiWorkspaceEntity, heads: Seq<ConversationHead>) -> bool {
        &&& self == (AiWorkspaceEntity {
            history: AiHistoryState {
                current_list: self.history.current_list,
                archived_list: self.history.archived_list,
                deleted_conversations: self.history.deleted_conversations,
                ..before.history
            },
            ..before
        })
        &&& self.history.archived_list.is_blank()
        &&& exists|blank: ConversationListPage| blank.is_blank() && #[trigger]
            self.history.current_list.advanced(blank, heads)
        &&& self.history.deleted_conversations@ == Map::<Seq<char>, ()>::empty()
    }

    /// Starts the lists anew with the first page of the current conversations, of which `heads`
    /// keeps what is shown.
    pub fn initialize_conversation_list(&mut self, heads: &mut Vec<ConversationHead>)
        requires
            old(self).wf(),
        ensures
            final(self).wf(),
            final(self).lists_initialized(*old(self), old(heads)@),
            final(heads)@ == page_of(old(heads)@),
    {
        self.history.archived_list = ConversationListPage::new();
        let mut page = ConversationListPage::new();
        let ghost blank = page;
        page.advance(heads);
        assert(page.advanced(blank, heads@));
        self.history.current_list = page;
        if heads.len() > CONVERSATION_PAGE_SIZE {
            heads.truncate(CONVERSATION_PAGE_SIZE);
        }
        self.history.deleted_conversations.clear();
    }

    /// Only the conversations in memory and their branches differ.
    pub open spec fn listing_changed(self, before: AiWorkspaceEntity) -> bool {
        self == (AiWorkspaceEntity {
            history: AiHistoryState { branches: self.history.branches, ..before.history },
            conversation_state: ConversationState {
                conversations: self.conversation_state.conversations,
                ..before.conversation_state
            },
            ..before
        })
    }

    pub open spec fn listing(self) -> Listing {
        (self.conversation_state.conversations@, self.history.branches@)
    }

    fn list_conversations(&mut self, heads: Vec<ConversationHead>)
        requires
            old(self).wf(),
        ensures
            final(self).wf(),
            final(self).listing_changed(*old(self)),
            final(self).listing() == listed(
                old(self).listing(),
                old(self).history.deleted_conversations@.dom(),
                heads@,
            ),
    {
        let ghost all = heads@;
        let mut heads = heads;
        let ghost mut done: int = 0;
        assert(all.take(0) =~= Seq::<ConversationHead>::empty());
        assert(heads@ =~= all.skip(0));
        while heads.len() > 0
            invariant
                0 <= done <= all.len(),
                heads@ == all.skip(done),
                self.wf(),
                self.listing_changed(*old(self)),
                self.listing() == listed(
                    old(self).listing(),
                    old(self).history.deleted_conversations@.dom(),
                    all.take(done),
                ),
            decreases heads@.len(),
        {
            let head = heads.remove(0);
            assert(head == all[done]);
            assert(heads@ =~= all.skip(done + 1));
            assert(all.take(done + 1).drop_last() =~= all.take(done));
            let known = self.history.deleted_conversations.contains(&head.conversation.id)
                || find_conversation(
                &self.conversation_state.conversations,
                head.conversation.id.as_str(),
            ).is_some();
            if !known {
                self.history.branches.insert(head.conversation.id.clone(), head.active_branch);
                self.conversation_state.conversations.push(head.conversation);
            }
            proof {
                done = done + 1;
            }
        }
        assert(all.take(done) =~= all);
    }

    fn advance_list(&mut self, archived: bool, heads: &Vec<ConversationHead>)
        requires
            old(self).wf(),
        ensures
            final(self).wf(),
            *final(self) == old(self).with_list(archived, final(self).list_page(archived)),
            final(self).list_page(archived).advanced(
                (ConversationListPage { running: false, ..old(self).list_page(archived) }),
                heads@,
            ),
    {
        if archived {
            self.history.archived_list.running = false;
            self.history.archived_list.advance(heads);
        } else {
            self.history.current_list.running = false;
            self.history.current_list.advance(heads);
        }
    }

    /// What an answer to a request for a page of a list does.
    pub open spec fn list_applied(self, before: AiWorkspaceEntity, archived: bool, result: Result<Vec<ConversationHead>, ()>) -> bool {
        let page = ConversationListPage { running: false, ..before.list_page(archived) };
        match result {
            Ok(heads) => {
                &&& self.list_page(archived).advanced(page, heads@)
                &&& self.listing_changed(before.with_list(archived, self.list_page(archived)))
                &&& self.listing() == listed(
                    before.listing(),
                    before.history.deleted_conversations@.dom(),
                    page_of(heads@),
                )
            },
            Err(_) => self == before.with_list(
                archived,
                ConversationListPage { failed: true, ..page },
            ),
        }
    }

    /// The store answered a request for a page of a list.
    pub fn apply_conversation_list(&mut self, archived: bool, result: Result<Vec<ConversationHead>, ()>)
        requires
            old(self).wf(),
        ensures
            final(self).wf(),
            final(self).list_applied(*old(self), archived, result),
    {
        match result {
            Ok(heads) => {
                let ghost all = heads@;
                self.advance_list(archived, &heads);
                let mut heads = heads;
                if heads.len() > CONVERSATION_PAGE_SIZE {
                    heads.truncate(CONVERSATION_PAGE_SIZE);
                }
                assert(heads@ =~= page_of(all));
                self.list_conversations(heads);
            },
            Err(_) => {
                if archived {
                    self.history.archived_list.running = false;
                    self.history.archived_list.failed = true;
                } else {
                    self.history.current_list.running = false;
                    self.history.current_list.failed = true;
                }
            },
        }
    }

    /// Both lists are complete and empty, in a new epoch.
    pub open spec fn lists_cleared(self, before: AiWorkspaceEntity) -> bool {
        let empty = ConversationListPage {
            initialized: true,
            has_more: false,
            failed: false,
            cursor: None,
            running: false,
        };
        &&& self.history.conversation_list_epoch == before.history.conversation_list_epoch + 1
        &&& self == (AiWorkspaceEntity {
            history: AiHistoryState {
                conversation_list_epoch: self.history.conversation_list_epoch,
                current_list: empty,
                archived_list: empty,
                ..before.history
            },
            ..before
        })
    }

    /// Starts both lists anew, complete and empty, and makes answers that are under way too old.
    pub fn reset_conversation_lists_after_clear(&mut self)
        requires
            old(self).wf(),
            old(self).history.conversation_list_epoch < u64::MAX,
        ensures
            final(self).wf(),
            final(self).lists_cleared(*old(self)),
    {
        self.history.conversation_list_epoch = self.history.conversation_list_epoch + 1;
        self.history.current_list = ConversationListPage::new();
        self.history.archived_list = ConversationListPage::new();
        self.history.current_list.initialized = true;
        self.history.archived_list.initialized = true;
    }
}

} // verus!
