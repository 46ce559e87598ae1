//! Pages that the store delivers.

use vstd::prelude::*;

use crate::ai::messages::AiChatMessage;
use crate::ai_state::entity::{
    all_pages_wf, AiHistoryState, AiWorkspaceEntity, Effect, HistoryEffect, HistoryPageState,
    PageDirection,
};
use crate::ai_state::model::{
    conversation_position, find_conversation, AiConversation, MessageDescriptor, MessagePage,
};
use crate::ai_state::pages::PageDelivery;
use crate::ai_state::window::{
    ids_of, is_preview, listed_once, preview_message, law_windows_stay_small,
};
use crate::table::Table;
use crate::text;

verus! {

/// Whether a message is kept as it is in memory: it waits to be written, or is being written.
pub open spec fn is_live(message: AiChatMessage, pending: Map<(Seq<char>, Seq<char>), u64>, id: Seq<char>) -> bool {
    pending.dom().contains((id, message.id@)) || message.is_streaming
}

/// The messages in memory that take the place of their stored versions.
pub open spec fn live_in(
    messages: Seq<AiChatMessage>,
    pending: Map<(Seq<char>, Seq<char>), u64>,
    id: Seq<char>,
    listed: Seq<Seq<char>>,
) -> Map<Seq<char>, AiChatMessage>
    decreases messages.len(),
{
    if messages.len() == 0 {
        Map::empty()
    } else {
        let earlier = live_in(messages.drop_last(), pending, id, listed);
        let message = messages.last();
        if is_live(message, pending, id) && listed.contains(message.id@) {
            earlier.insert(message.id@, message)
        } else {
            earlier
        }
    }
}

/// The messages in memory that stay behind the listed ones: live ones that the page does not list,
/// and, where the window goes on, those that it never listed.
pub open spec fn tail_in(
    messages: Seq<AiChatMessage>,
    pending: Map<(Seq<char>, Seq<char>), u64>,
    id: Seq<char>,
    fresh: bool,
    shown: Seq<Seq<char>>,
    listed: Seq<Seq<char>>,
) -> Seq<AiChatMessage>
    decreases messages.len(),
{
    if messages.len() == 0 {
        Seq::empty()
    } else {
        let earlier = tail_in(messages.drop_last(), pending, id, fresh, shown, listed);
        let message = messages.last();
        let stays = if is_live(message, pending, id) {
            !listed.contains(message.id@)
        } else {
            !fresh && !shown.contains(message.id@) && !listed.contains(message.id@)
        };
        if stays {
            earlier.push(message)
        } else {
            earlier
        }
    }
}

fn split_messages(
    messages: Vec<AiChatMessage>,
    pending: &Table<(String, String), u64>,
    id: &str,
    fresh: bool,
    shown: &Vec<String>,
    listed: &Vec<String>,
) -> (res: (Table<String, AiChatMessage>, Vec<AiChatMessage>))
    ensures
        res.0.wf(),
        res.0@ == live_in(messages@, pending@, id@, text::seq_view(listed@)),
        res.1@ == tail_in(
            messages@,
            pending@,
            id@,
            fresh,
            text::seq_view(shown@),
            text::seq_view(listed@),
        ),
{
    let ghost all = messages@;
    let mut rest = messages;
    let mut live: Table<String, AiChatMessage> = Table::new();
    let mut tail: Vec<AiChatMessage> = Vec::new();
    let ghost mut done: int = 0;
    assert(all.take(0) =~= Seq::<AiChatMessage>::empty());
    assert(rest@ =~= all.skip(0));
    assert(tail@ =~= Seq::<AiChatMessage>::empty());
    while rest.len() > 0
        invariant
            0 <= done <= all.len(),
            rest@ == all.skip(done),
            live.wf(),
            live@ == live_in(all.take(done), pending@, id@, text::seq_view(listed@)),
            tail@ == tail_in(
                all.take(done),
                pending@,
                id@,
                fresh,
                text::seq_view(shown@),
                text::seq_view(listed@),
            ),
        decreases rest@.len(),
    {
        let message = rest.remove(0);
        assert(message == all[done]);
        assert(rest@ =~= all.skip(done + 1));
        assert(all.take(done + 1).drop_last() =~= all.take(done));
        let is_listed = text::list_contains(listed, message.id.as_str());
        let waits = pending.contains(&(id.to_owned(), message.id.clone()));
        if waits || message.is_streaming {
            if is_listed {
                live.insert(message.id.clone(), message);
            } else {
                tail.push(message);
            }
        } else if !fresh && !is_listed {
            if !text::list_contains(shown, message.id.as_str()) {
                tail.push(message);
            }
        }
        proof {
            done = done + 1;
        }
    }
    assert(all.take(done) =~= all);
    (live, tail)
}

/// The messages of a conversation as a window lists them: each as it is in memory where that is
/// newer, otherwise as a preview, and the rest of memory behind them.
pub open spec fn laid_out(
    messages: Seq<AiChatMessage>,
    list: Seq<MessageDescriptor>,
    live: Map<Seq<char>, AiChatMessage>,
    tail: Seq<AiChatMessage>,
) -> bool {
    &&& messages.len() == list.len() + tail.len()
    &&& messages.skip(list.len() as int) == tail
    &&& forall|i: int|
        0 <= i < list.len() ==> if live.dom().contains((#[trigger] list[i]).id@) {
            messages[i] == live[list[i].id@]
        } else {
            is_preview(messages[i], list[i])
        }
}

fn lay_out(list: &Vec<MessageDescriptor>, live: Table<String, AiChatMessage>, tail: Vec<AiChatMessage>) -> (res: Vec<AiChatMessage>)
    requires
        live.wf(),
        listed_once(list@),
    ensures
        laid_out(res@, list@, live@, tail@),
{
    let ghost all = live@;
    let mut live = live;
    let mut out: Vec<AiChatMessage> = Vec::new();
    let mut i: usize = 0;
    while i < list.len()
        invariant
            i <= list.len(),
            live.wf(),
            listed_once(list@),
            out@.len() == i,
            forall|j: int|
                i <= j < list.len() ==> live@.dom().contains((#[trigger] list@[j]).id@)
                    == all.dom().contains(list@[j].id@) && (all.dom().contains(list@[j].id@)
                    ==> live@[list@[j].id@] == all[list@[j].id@]),
            forall|j: int|
                0 <= j < i ==> if all.dom().contains((#[trigger] list@[j]).id@) {
                    out@[j] == all[list@[j].id@]
                } else {
                    is_preview(out@[j], list@[j])
                },
        decreases list.len() - i,
    {
        let entry = &list[i];
        match live.remove(&entry.id) {
            Some(message) => {
                out.push(message);
            },
            None => {
                out.push(preview_message(entry));
            },
        }
        assert forall|j: int| i < j < list.len() implies live@.dom().contains((#[trigger] list@[j]).id@)
            == all.dom().contains(list@[j].id@) && (all.dom().contains(list@[j].id@) ==> live@[list@[j].id@]
            == all[list@[j].id@]) by {
            assert(list@[i as int].id@ != list@[j].id@);
        }
        i += 1;
    }
    let ghost rest = tail@;
    let ghost front = out@;
    let mut tail = tail;
    out.append(&mut tail);
    assert(out@.skip(list@.len() as int) =~= rest);
    out
}

fn keys_of(table: &Table<String, MessageDescriptor>) -> (res: Vec<String>)
    requires
        table.wf(),
    ensures
        forall|id: Seq<char>| #[trigger]
            text::seq_view(res@).contains(id) == table@.dom().contains(id),
{
    let mut out: Vec<String> = Vec::new();
    let mut i: usize = 0;
    while i < table.entries.len()
        invariant
            i <= table.entries.len(),
            out@.len() == i,
            forall|j: int| 0 <= j < i ==> (#[trigger] out@[j])@ == table.entries@[j].0@,
        decreases table.entries.len() - i,
    {
        out.push(table.entries[i].0.clone());
        i += 1;
    }
    assert forall|id: Seq<char>| #[trigger]
        text::seq_view(out@).contains(id) == table@.dom().contains(id) by {
        if text::seq_view(out@).contains(id) {
            let j = choose|j: int| 0 <= j < out@.len() && text::seq_view(out@)[j] == id;
            table.lemma_entry(j);
            assert(out@[j]@ == table.entries@[j].0@);
        }
        if table@.dom().contains(id) {
            let j = table.lemma_position(id);
            assert(out@[j]@ == id);
            assert(text::seq_view(out@)[j] == id);
        }
    }
    out
}

impl AiWorkspaceEntity {
    /// Only a conversation's window differs.
    pub open spec fn window_changed(self, before: AiWorkspaceEntity, id: Seq<char>) -> bool {
        &&& self == (AiWorkspaceEntity {
            history: AiHistoryState { pages: self.history.pages, ..before.history },
            ..before
        })
        &&& self.history.pages@ == before.history.pages@.insert(id, self.history.pages@[id])
    }

    /// The state once a page came in, whatever it holds: nothing is loaded any more.
    pub open spec fn settled_from(self, before: AiWorkspaceEntity, id: Seq<char>) -> bool {
        exists|opened: AiWorkspaceEntity|
            {
                &&& #[trigger] opened.window_opened(
                    AiWorkspaceEntity {
                        history: AiHistoryState { load_running: false, ..before.history },
                        ..before
                    },
                    id,
                )
                &&& self.window_changed(opened, id)
                &&& self.history.pages@[id] == (HistoryPageState {
                    loading: false,
                    ..opened.history.pages@[id]
                })
            }
    }

    fn settle_page(&mut self, id: &String)
        requires
            old(self).wf(),
        ensures
            final(self).wf(),
            final(self).settled_from(*old(self), id@),
            final(self).history.pages@.dom().contains(id@),
            final(self).history.page_generation == old(self).history.page_generation,
    {
        self.history.load_running = false;
        self.open_window(id);
        let ghost opened = *self;
        proof {
            reveal(all_pages_wf);
        }
        match self.history.pages.get_mut(id) {
            Some(page) => {
                page.loading = false;
            },
            None => {},
        }
        assert(opened.window_opened(
            AiWorkspaceEntity {
                history: AiHistoryState { load_running: false, ..old(self).history },
                ..*old(self)
            },
            id@,
        ));
    }

    /// A page could not be read. One that continued the window is asked for again around what is
    /// shown.
    pub open spec fn page_failed(self, settled: AiWorkspaceEntity, id: Seq<char>, direction: PageDirection) -> bool {
        exists|failed: AiWorkspaceEntity|
            {
                &&& #[trigger] failed.window_changed(settled, id)
                &&& failed.history.pages@[id] == (HistoryPageState {
                    failed: true,
                    ..settled.history.pages@[id]
                })
                &&& {
                    let sequence = failed.top_sequence(failed.history.pages@[id]);
                    if !direction.fresh() && sequence is Some {
                        self.page_requested(failed, id, PageDirection::Around(sequence->0))
                    } else {
                        self == failed
                    }
                }
            }
    }

    fn fail_page(&mut self, id: String, direction: PageDirection)
        requires
            old(self).wf(),
            old(self).history.pages@.dom().contains(id@),
            old(self).history.page_generation < u64::MAX,
        ensures
            final(self).wf(),
            final(self).page_failed(*old(self), id@, direction),
    {
        proof {
            reveal(all_pages_wf);
        }
        match self.history.pages.get_mut(&id) {
            Some(page) => {
                page.failed = true;
            },
            None => {},
        }
        let ghost failed = *self;
        assert(failed.window_changed(*old(self), id@));
        if direction.is_fresh() {
            return;
        }
        let sequence = match self.history.pages.get(&id) {
            Some(page) => self.find_top_sequence(page),
            None => None,
        };
        match sequence {
            Some(sequence) => {
                self.load_history_page(id, PageDirection::Around(sequence));
            },
            None => {},
        }
    }

    /// The window once it knows its branch and the row to come back to.
    pub open spec fn anchored(self, before: AiWorkspaceEntity, id: Seq<char>, branch: Seq<char>, direction: PageDirection) -> bool {
        let window = before.history.pages@[id];
        let page = self.history.pages@[id];
        let conversations = before.conversation_state.conversations@;
        let at = conversation_position(conversations, id);
        let row = before.top_position(window);
        &&& self.window_changed(before, id)
        &&& page == (HistoryPageState { branch: page.branch, anchor: page.anchor, ..window })
        &&& page.branch@ == branch
        &&& if at < conversations.len() && direction != PageDirection::Initial && row
            < conversations[at].messages@.len() {
            page.anchor == Some((conversations[at].messages@[row].id, before.chat_ui.top_offset))
        } else {
            page.anchor == window.anchor
        }
    }

    fn anchor_page(&mut self, id: &String, branch: &String, direction: PageDirection)
        requires
            old(self).wf(),
            old(self).history.pages@.dom().contains(id@),
        ensures
            final(self).wf(),
            final(self).anchored(*old(self), id@, branch@, direction),
    {
        proof {
            reveal(all_pages_wf);
        }
        let row: usize = match self.history.pages.get(id) {
            Some(page) => self.chat_ui.top_item.saturating_sub(self.headers(page)),
            None => 0,
        };
        let mut anchor: Option<(String, u64)> = None;
        if direction != PageDirection::Initial {
            match find_conversation(&self.conversation_state.conversations, id.as_str()) {
                Some(at) => {
                    let messages = &self.conversation_state.conversations[at].messages;
                    if row < messages.len() {
                        anchor = Some((messages[row].id.clone(), self.chat_ui.top_offset));
                    }
                },
                None => {},
            }
        }
        match self.history.pages.get_mut(id) {
            Some(page) => {
                page.branch = branch.clone();
                if anchor.is_some() {
                    page.anchor = anchor;
                }
            },
            None => {},
        }
    }

    /// The window once a page was merged into it.
    pub open spec fn page_merged(
        self,
        before: AiWorkspaceEntity,
        id: Seq<char>,
        branch: Seq<char>,
        page: MessagePage,
        direction: PageDirection,
        list: Seq<MessageDescriptor>,
    ) -> bool {
        &&& self.window_changed(before, id)
        &&& exists|full: Seq<MessageDescriptor>| #[trigger]
            self.history.pages@[id].merged_from(
                before.history.pages@[id],
                page,
                direction,
                id,
                branch,
                full,
                list,
            )
    }

    fn merge_page(&mut self, id: &String, branch: &String, page: MessagePage, direction: PageDirection) -> (res: Vec<MessageDescriptor>)
        requires
            old(self).wf(),
            old(self).history.pages@.dom().contains(id@),
        ensures
            final(self).wf(),
            listed_once(res@),
            final(self).page_merged(*old(self), id@, branch@, page, direction, res@),
    {
        proof {
            reveal(all_pages_wf);
        }
        let ghost mut merged: Seq<MessageDescriptor> = Seq::empty();
        let list = match self.history.pages.get_mut(id) {
            Some(window) => {
                let ghost before = *window;
                let list = window.merge(page, direction, id.as_str(), branch.as_str());
                proof {
                    let full = choose|full: Seq<MessageDescriptor>| #[trigger]
                        window.merged_from(before, page, direction, id@, branch@, full, list@);
                    law_windows_stay_small(full, direction);
                    merged = full;
                }
                list
            },
            None => Vec::new(),
        };
        assert(self.history.pages@[id@].merged_from(
            old(self).history.pages@[id@],
            page,
            direction,
            id@,
            branch@,
            merged,
            list@,
        ));
        list
    }

    /// The conversation once its messages were laid out along a window.
    pub open spec fn messages_rebuilt(
        self,
        before: AiWorkspaceEntity,
        id: Seq<char>,
        fresh: bool,
        shown: Map<Seq<char>, MessageDescriptor>,
        list: Seq<MessageDescriptor>,
    ) -> bool {
        let conversations = before.conversation_state.conversations@;
        let at = conversation_position(conversations, id);
        let now = self.conversation_state.conversations@;
        let pending = before.history.changes.messages@;
        &&& self == (AiWorkspaceEntity { conversation_state: self.conversation_state, ..before })
        &&& self.conversation_state.active_conversation_id
            == before.conversation_state.active_conversation_id
        &&& now == conversations.update(at, now[at])
        &&& now[at] == (AiConversation {
            messages: now[at].messages,
            messages_loaded: true,
            ..conversations[at]
        })
        &&& exists|keys: Seq<Seq<char>>|
            {
                &&& forall|key: Seq<char>| #[trigger]
                    keys.contains(key) == shown.dom().contains(key)
                &&& laid_out(
                    now[at].messages@,
                    list,
                    live_in(conversations[at].messages@, pending, id, ids_of(list)),
                    #[trigger] tail_in(
                        conversations[at].messages@,
                        pending,
                        id,
                        fresh,
                        keys,
                        ids_of(list),
                    ),
                )
            }
    }

    fn rebuild_messages(
        &mut self,
        at: usize,
        id: &String,
        fresh: bool,
        shown: &Vec<String>,
        Ghost(window): Ghost<Map<Seq<char>, MessageDescriptor>>,
        list: &Vec<MessageDescriptor>,
    )
        requires
            old(self).wf(),
            listed_once(list@),
            at == conversation_position(old(self).conversation_state.conversations@, id@),
            at < old(self).conversation_state.conversations@.len(),
            forall|key: Seq<char>| #[trigger]
                text::seq_view(shown@).contains(key) == window.dom().contains(key),
        ensures
            final(self).wf(),
            final(self).messages_rebuilt(*old(self), id@, fresh, window, list@),
    {
        let mut messages: Vec<AiChatMessage> = Vec::new();
        std::mem::swap(&mut messages, &mut self.conversation_state.conversations[at].messages);
        let ghost taken = messages@;
        let mut listed: Vec<String> = Vec::new();
        let mut i: usize = 0;
        while i < list.len()
            invariant
                i <= list.len(),
                listed@.len() == i,
                forall|j: int| 0 <= j < i ==> (#[trigger] listed@[j])@ == list@[j].id@,
            decreases list.len() - i,
        {
            listed.push(list[i].id.clone());
            i += 1;
        }
        assert(text::seq_view(listed@) =~= ids_of(list@));
        let (live, tail) = split_messages(
            messages,
            &self.history.changes.messages,
            id.as_str(),
            fresh,
            shown,
            &listed,
        );
        let ghost kept = tail@;
        let laid = lay_out(list, live, tail);
        self.conversation_state.conversations[at].messages = laid;
        self.conversation_state.conversations[at].messages_loaded = true;
        proof {
            let before = old(self).conversation_state.conversations@;
            let now = self.conversation_state.conversations@;
            assert(now =~= before.update(at as int, now[at as int]));
            assert(kept == tail_in(
                before[at as int].messages@,
                old(self).history.changes.messages@,
                id@,
                fresh,
                text::seq_view(shown@),
                ids_of(list@),
            ));
        }
    }

    /// Loads what is known of a conversation's agents.
    pub open spec fn agents_requested(self, before: AiWorkspaceEntity, id: Seq<char>) -> bool {
        if before.history.store_open {
            &&& self == (AiWorkspaceEntity {
                history: AiHistoryState {
                    agents_load_running: true,
                    effects: self.history.effects,
                    ..before.history
                },
                ..before
            })
            &&& self.history.asked() == before.history.asked().push(
                Effect::LoadAgents { generation: before.history.generation, conversation: id },
            )
        } else {
            self == before
        }
    }

    /// Asks the store for what it keeps of a conversation's agents.
    pub fn request_history_agents(&mut self, id: &str)
        ensures
            final(self).agents_requested(*old(self), id@),
    {
        if !self.history.store_open {
            return;
        }
        self.history.agents_load_running = true;
        let generation = self.history.generation;
        self.history.ask(HistoryEffect::LoadAgents { generation, conversation: id.to_owned() });
    }

    /// Loads the summaries of a conversation's agents.
    pub fn load_agent_summaries(&mut self, conversation_id: &str)
        ensures
            final(self).agents_requested(*old(self), conversation_id@),
    {
        self.request_history_agents(conversation_id);
    }

    /// The state once a conversation is known to go on in the branch of a page; the first page also
    /// resets the rows and asks for the agents.
    pub open spec fn page_shown(self, before: AiWorkspaceEntity, id: Seq<char>, branch: String, initial: bool) -> bool {
        let entered = AiWorkspaceEntity {
            history: AiHistoryState { branches: self.history.branches, ..before.history },
            ..before
        };
        &&& self.history.branches@ == before.history.branches@.insert(id, branch)
        &&& if initial {
            &&& self == (AiWorkspaceEntity {
                history: AiHistoryState {
                    agents_load_running: self.history.agents_load_running,
                    effects: self.history.effects,
                    ..entered.history
                },
                ..entered
            })
            &&& self.history.agents_load_running == (before.history.agents_load_running
                || before.history.store_open)
            &&& self.history.asked() == if before.history.store_open {
                before.history.asked().push(Effect::ResetMessageList).push(
                    Effect::LoadAgents { generation: before.history.generation, conversation: id },
                )
            } else {
                before.history.asked().push(Effect::ResetMessageList)
            }
        } else {
            self == entered
        }
    }

    fn show_page(&mut self, id: &String, branch: String, initial: bool)
        requires
            old(self).wf(),
        ensures
            final(self).wf(),
            final(self).page_shown(*old(self), id@, branch, initial),
    {
        self.history.branches.insert(id.clone(), branch);
        if initial {
            self.history.ask(HistoryEffect::ResetMessageList);
            self.load_agent_summaries(id.as_str());
        }
    }

    /// What a page that was read does.
    pub open spec fn page_arrived(
        self,
        settled: AiWorkspaceEntity,
        id: Seq<char>,
        branch: String,
        page: MessagePage,
        direction: PageDirection,
    ) -> bool {
        exists|anchored: AiWorkspaceEntity|
            {
                &&& #[trigger] anchored.anchored(settled, id, branch@, direction)
                &&& self.page_laid_out(anchored, id, branch, page, direction)
            }
    }

    /// What a page that was read does once the window is anchored.
    pub open spec fn page_laid_out(
        self,
        anchored: AiWorkspaceEntity,
        id: Seq<char>,
        branch: String,
        page: MessagePage,
        direction: PageDirection,
    ) -> bool {
        let conversations = anchored.conversation_state.conversations@;
        if conversation_position(conversations, id) >= conversations.len() {
            self == anchored
        } else {
            exists|merged: AiWorkspaceEntity, list: Seq<MessageDescriptor>, rebuilt: AiWorkspaceEntity|
                {
                    &&& #[trigger] merged.page_merged(
                        anchored,
                        id,
                        branch@,
                        page,
                        direction,
                        list,
                    )
                    &&& #[trigger] rebuilt.messages_rebuilt(
                        merged,
                        id,
                        direction.fresh(),
                        anchored.history.pages@[id].descriptions@,
                        list,
                    )
                    &&& self.page_shown(rebuilt, id, branch, direction == PageDirection::Initial)
                }
        }
    }

    fn take_page(&mut self, id: String, branch: String, page: MessagePage, direction: PageDirection)
        requires
            old(self).wf(),
            old(self).history.pages@.dom().contains(id@),
        ensures
            final(self).wf(),
            final(self).page_arrived(*old(self), id@, branch, page, direction),
    {
        self.anchor_page(&id, &branch, direction);
        let ghost anchored = *self;
        assert(anchored.anchored(*old(self), id@, branch@, direction));
        let at = match find_conversation(&self.conversation_state.conversations, id.as_str()) {
            Some(at) => at,
            None => {
                return;
            },
        };
        let shown = match self.history.pages.get(&id) {
            Some(window) => {
                proof {
                    reveal(all_pages_wf);
                }
                keys_of(&window.descriptions)
            },
            None => Vec::new(),
        };
        let list = self.merge_page(&id, &branch, page, direction);
        let ghost merged = *self;
        self.rebuild_messages(
            at,
            &id,
            direction.is_fresh(),
            &shown,
            Ghost(anchored.history.pages@[id@].descriptions@),
            &list,
        );
        let ghost rebuilt = *self;
        let initial = direction == PageDirection::Initial;
        let ghost place = branch;
        self.show_page(&id, branch, initial);
        proof {
            assert(merged.page_merged(anchored, id@, place@, page, direction, list@));
            assert(rebuilt.messages_rebuilt(
                merged,
                id@,
                direction.fresh(),
                anchored.history.pages@[id@].descriptions@,
                list@,
            ));
        }
    }

    /// Whether a delivered page is the one that was last asked for, of the conversation that is
    /// shown.
    pub open spec fn awaits_page(self, delivery: PageDelivery) -> bool {
        &&& delivery.generation == self.history.page_generation
        &&& text::opt_view(self.conversation_state.active_conversation_id) == Some(delivery.id@)
    }

    /// The store delivered a page.
    pub fn apply_history_page(&mut self, delivery: PageDelivery)
        requires
            old(self).wf(),
            old(self).history.page_generation < u64::MAX,
        ensures
            final(self).wf(),
            !old(self).awaits_page(delivery) ==> *final(self) == *old(self),
            old(self).awaits_page(delivery) ==> exists|settled: AiWorkspaceEntity|
                {
                    &&& #[trigger] settled.settled_from(*old(self), delivery.id@)
                    &&& match delivery.result {
                        Ok(page) => final(self).page_arrived(
                            settled,
                            delivery.id@,
                            delivery.branch,
                            page,
                            delivery.direction,
                        ),
                        Err(_) => final(self).page_failed(
                            settled,
                            delivery.id@,
                            delivery.direction,
                        ),
                    }
                },
    {
        let active = match &self.conversation_state.active_conversation_id {
            Some(active) => text::same(active.as_str(), delivery.id.as_str()),
            None => false,
        };
        if delivery.generation != self.history.page_generation || !active {
            return;
        }
        self.settle_page(&delivery.id);
        let ghost settled = *self;
        assert(settled.settled_from(*old(self), delivery.id@));
        match delivery.result {
            Ok(page) => {
                self.take_page(delivery.id, delivery.branch, page, delivery.direction);
            },
            Err(_) => {
                self.fail_page(delivery.id, delivery.direction);
            },
        }
    }
}

proof fn lemma_live_message_is_kept(
    messages: Seq<AiChatMessage>,
    pending: Map<(Seq<char>, Seq<char>), u64>,
    id: Seq<char>,
    fresh: bool,
    shown: Seq<Seq<char>>,
    listed: Seq<Seq<char>>,
    at: int,
)
    requires
        0 <= at < messages.len(),
        is_live(messages[at], pending, id),
        forall|i: int, j: int|
            0 <= i < j < messages.len() ==> (#[trigger] messages[i]).id@ != (#[trigger] messages[j]).id@,
    ensures
        ({
            let message = messages[at];
            let live = live_in(messages, pending, id, listed);
            if listed.contains(message.id@) {
                live.dom().contains(message.id@) && live[message.id@] == message
            } else {
                tail_in(messages, pending, id, fresh, shown, listed).contains(message)
            }
        }),
    decreases messages.len(),
{
    let message = messages[at];
    let rest = messages.drop_last();
    if at < messages.len() - 1 {
        assert(rest[at] == messages[at]);
        assert forall|i: int, j: int| 0 <= i < j < rest.len() implies (#[trigger] rest[i]).id@ != (
        #[trigger] rest[j]).id@ by {
            assert(rest[i] == messages[i] && rest[j] == messages[j]);
        }
        lemma_live_message_is_kept(rest, pending, id, fresh, shown, listed, at);
        assert(messages[at].id@ != messages[messages.len() - 1].id@);
        if !listed.contains(message.id@) {
            let tail = tail_in(rest, pending, id, fresh, shown, listed);
            let i = choose|i: int| 0 <= i < tail.len() && tail[i] == message;
            assert(tail_in(messages, pending, id, fresh, shown, listed)[i] == message);
        }
    } else if !listed.contains(message.id@) {
        let tail = tail_in(rest, pending, id, fresh, shown, listed);
        assert(tail_in(messages, pending, id, fresh, shown, listed)[tail.len() as int] == message);
    }
}

/// A message that waits to be written or is being written stays in its conversation, as it is,
/// whatever page arrives.
pub proof fn law_live_messages_survive_paging(
    before: AiWorkspaceEntity,
    after: AiWorkspaceEntity,
    id: Seq<char>,
    fresh: bool,
    shown: Map<Seq<char>, MessageDescriptor>,
    list: Seq<MessageDescriptor>,
    at: int,
)
    requires
        after.messages_rebuilt(before, id, fresh, shown, list),
        ({
            let conversations = before.conversation_state.conversations@;
            let place = conversation_position(conversations, id);
            let messages = conversations[place].messages@;
            &&& place < conversations.len()
            &&& 0 <= at < messages.len()
            &&& is_live(messages[at], before.history.changes.messages@, id)
            &&& forall|i: int, j: int|
                0 <= i < j < messages.len() ==> (#[trigger] messages[i]).id@ != (
                #[trigger] messages[j]).id@
        }),
    ensures
        ({
            let place = conversation_position(before.conversation_state.conversations@, id);
            after.conversation_state.conversations@[place].messages@.contains(
                before.conversation_state.conversations@[place].messages@[at],
            )
        }),
{
    let conversations = before.conversation_state.conversations@;
    let place = conversation_position(conversations, id);
    let messages = conversations[place].messages@;
    let message = messages[at];
    let now = after.conversation_state.conversations@[place].messages@;
    let pending = before.history.changes.messages@;
    let live = live_in(messages, pending, id, ids_of(list));
    let keys = choose|keys: Seq<Seq<char>>|
        {
            &&& forall|key: Seq<char>| #[trigger] keys.contains(key) == shown.dom().contains(key)
            &&& laid_out(
                now,
                list,
                live,
                #[trigger] tail_in(messages, pending, id, fresh, keys, ids_of(list)),
            )
        };
    let tail = tail_in(messages, pending, id, fresh, keys, ids_of(list));
    lemma_live_message_is_kept(messages, pending, id, fresh, keys, ids_of(list), at);
    if ids_of(list).contains(message.id@) {
        let i = choose|i: int| 0 <= i < ids_of(list).len() && ids_of(list)[i] == message.id@;
        assert(list[i].id@ == message.id@);
        assert(now[i] == message);
    } else {
        let i = choose|i: int| 0 <= i < tail.len() && tail[i] == message;
        assert(now.skip(list.len() as int)[i] == message);
        assert(now[list.len() + i] == message);
    }
}

} // verus!
