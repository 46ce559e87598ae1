//! The decoded messages that rows show.

use vstd::prelude::*;

use crate::ai::messages::{find_message, message_position, AiChatMessage};
use crate::ai_state::entity::{
    all_pages_wf, AiHistoryState, AiWorkspaceEntity, Effect, HistoryEffect,
    HistoryPageState,
};
use crate::ai_state::model::{
    conversation_position, find_conversation, AiConversation, HistoryViewOwner, ViewOwner,
};
use crate::table::Key;
use crate::text;

verus! {

/// A decoded message as the store delivered it. `body` names the decoded form, `header` is the part
/// of the message that rows without a body show.
pub struct BodyDelivery {
    pub generation: u64,
    pub owner: HistoryViewOwner,
    pub storage_id: String,
    pub message: String,
    pub revision: u64,
    pub token: u64,
    pub result: Result<(u64, AiChatMessage), ()>,
}

impl AiWorkspaceEntity {
    /// The window that shows an owner's messages.
    pub open spec fn view_of(self, owner: ViewOwner) -> Option<HistoryPageState> {
        match owner {
            ViewOwner::Main(id) => if self.history.pages@.dom().contains(id) {
                Some(self.history.pages@[id])
            } else {
                None
            },
            _ => if self.history.auxiliary_pages@.dom().contains(owner) {
                Some(self.history.auxiliary_pages@[owner])
            } else {
                None
            },
        }
    }

    /// Only an owner's window differs: it is now `page`.
    pub open spec fn view_changed(self, before: AiWorkspaceEntity, owner: ViewOwner, page: HistoryPageState) -> bool {
        &&& self == (AiWorkspaceEntity {
            history: AiHistoryState {
                pages: self.history.pages,
                auxiliary_pages: self.history.auxiliary_pages,
                ..before.history
            },
            ..before
        })
        &&& match owner {
            ViewOwner::Main(id) => {
                &&& self.history.pages@ == before.history.pages@.insert(id, page)
                &&& self.history.auxiliary_pages == before.history.auxiliary_pages
            },
            _ => {
                &&& self.history.auxiliary_pages@ == before.history.auxiliary_pages@.insert(owner, page)
                &&& self.history.pages == before.history.pages
            },
        }
    }

    pub fn history_view(&self, owner: &HistoryViewOwner) -> (res: Option<&HistoryPageState>)
        requires
            self.wf(),
        ensures
            match res {
                Some(page) => self.view_of(owner.id()) == Some(*page) && page.wf(),
                None => self.view_of(owner.id()) is None,
            },
    {
        proof {
            reveal(all_pages_wf);
        }
        match owner {
            HistoryViewOwner::Main(id) => self.history.pages.get(id),
            _ => self.history.auxiliary_pages.get(owner),
        }
    }

    pub(crate) fn replace_view(&mut self, owner: &HistoryViewOwner, page: HistoryPageState)
        requires
            old(self).wf(),
            page.wf(),
        ensures
            final(self).wf(),
            final(self).view_changed(*old(self), owner.id(), page),
    {
        proof {
            reveal(all_pages_wf);
        }
        match owner {
            HistoryViewOwner::Main(id) => {
                self.history.pages.insert(id.clone(), page);
            },
            _ => {
                self.history.auxiliary_pages.insert(owner.duplicate(), page);
            },
        }
    }

    /// Takes an owner's window out, to be put back changed.
    pub(crate) fn take_view(&mut self, owner: &HistoryViewOwner) -> (res: Option<HistoryPageState>)
        requires
            old(self).wf(),
        ensures
            final(self).wf(),
            match res {
                Some(page) => {
                    &&& old(self).view_of(owner.id()) == Some(page)
                    &&& page.wf()
                    &&& forall|after: AiWorkspaceEntity, now: HistoryPageState| #[trigger]
                        after.view_changed(*final(self), owner.id(), now) ==> after.view_changed(
                            *old(self),
                            owner.id(),
                            now,
                        )
                },
                None => old(self).view_of(owner.id()) is None && *final(self) == *old(self),
            },
            *final(self) == (AiWorkspaceEntity {
                history: AiHistoryState {
                    pages: final(self).history.pages,
                    auxiliary_pages: final(self).history.auxiliary_pages,
                    ..old(self).history
                },
                ..*old(self)
            }),
    {
        proof {
            reveal(all_pages_wf);
        }
        match owner {
            HistoryViewOwner::Main(id) => {
                if !self.history.pages.contains(id) {
                    return None;
                }
                let page = self.history.pages.remove(id);
                proof {
                    assert forall|value: HistoryPageState|
                        #[trigger] self.history.pages@.insert(id@, value) == old(
                            self,
                        ).history.pages@.insert(id@, value) by {
                        assert(self.history.pages@.insert(id@, value) =~= old(
                            self,
                        ).history.pages@.insert(id@, value));
                    }
                }
                page
            },
            _ => {
                if !self.history.auxiliary_pages.contains(owner) {
                    return None;
                }
                let page = self.history.auxiliary_pages.remove(owner);
                proof {
                    assert forall|value: HistoryPageState|
                        #[trigger] self.history.auxiliary_pages@.insert(owner.id(), value) == old(
                            self,
                        ).history.auxiliary_pages@.insert(owner.id(), value) by {
                        assert(self.history.auxiliary_pages@.insert(owner.id(), value) =~= old(
                            self,
                        ).history.auxiliary_pages@.insert(owner.id(), value));
                    }
                }
                page
            },
        }
    }

    /// Whether a row shows the message in memory instead of the stored one: while it is written or
    /// waits to be, or as long as the window does not list it. Archives show what is stored.
    pub open spec fn shows_live(self, owner: HistoryViewOwner, id: Seq<char>) -> bool {
        let conversation = owner.spec_conversation();
        &&& !(owner is Archive)
        &&& self.message(conversation, id) is Some
        &&& {
            ||| self.message(conversation, id)->0.is_streaming
            ||| self.history.changes.messages@.dom().contains((conversation, id))
            ||| self.view_of(owner.id()) is None
            ||| !self.view_of(owner.id())->0.descriptions@.dom().contains(id)
        }
    }

    /// Which state of a message is in memory.
    pub open spec fn live_revision(self, conversation: Seq<char>, id: Seq<char>) -> u64 {
        if self.history.changes.messages@.dom().contains((conversation, id)) {
            self.history.changes.messages@[(conversation, id)]
        } else {
            self.history.committed
        }
    }

    /// The section of a message that a row shows.
    pub open spec fn shown_section(self, owner: ViewOwner, id: Seq<char>) -> Option<u64> {
        match self.view_of(owner) {
            Some(page) => if page.sections@.dom().contains(id) {
                Some(page.sections@[id])
            } else {
                None
            },
            None => None,
        }
    }

    /// Which state and which section of a message in memory a row shows.
    pub fn live_history_view(&self, owner: &HistoryViewOwner, id: &str) -> (res: Option<(u64, Option<u64>)>)
        requires
            self.wf(),
        ensures
            match res {
                Some((revision, section)) => {
                    &&& self.shows_live(*owner, id@)
                    &&& revision == self.live_revision(owner.spec_conversation(), id@)
                    &&& section == self.shown_section(owner.id(), id@)
                },
                None => !self.shows_live(*owner, id@),
            },
    {
        match owner {
            HistoryViewOwner::Archive(_, _) => {
                return None;
            },
            _ => {},
        }
        let conversation = owner.conversation();
        let streaming = match self.history_message(conversation, id) {
            Some(message) => message.is_streaming,
            None => {
                return None;
            },
        };
        let listed = match self.history_view(owner) {
            Some(page) => page.descriptions.contains(&id.to_owned()),
            None => false,
        };
        if !streaming && !self.history_message_is_pending(conversation, id) && listed {
            return None;
        }
        let section = match self.history_view(owner) {
            Some(page) => match page.sections.get(&id.to_owned()) {
                Some(section) => Some(*section),
                None => None,
            },
            None => None,
        };
        let revision = match self.history.changes.messages.get(
            &(conversation.to_owned(), id.to_owned()),
        ) {
            Some(revision) => *revision,
            None => self.history.committed,
        };
        Some((revision, section))
    }

    /// A number under a key that counts from nothing.
    pub open spec fn counted(map: Map<Seq<char>, u64>, key: Seq<char>) -> u64 {
        if map.dom().contains(key) {
            map[key]
        } else {
            0
        }
    }

    /// Whether a window asks the store for a message: not twice, and not again after a failure,
    /// unless the user does.
    pub open spec fn wants_body(page: HistoryPageState, message: Seq<char>, retry: bool) -> bool {
        &&& page.descriptions@.dom().contains(message)
        &&& retry || !(page.body_tasks@.dom().contains(message) || page.body_errors@.dom().contains(
            message,
        ))
    }

    /// The window while a message is read.
    pub open spec fn body_asked(page: HistoryPageState, before: HistoryPageState, message: Seq<char>, section: Option<u64>, retry: bool) -> bool {
        &&& page == (HistoryPageState {
            body_tasks: page.body_tasks,
            body_errors: page.body_errors,
            bodies: page.bodies,
            body_leases: page.body_leases,
            body_tokens: page.body_tokens,
            anchor: page.anchor,
            ..before
        })
        &&& page.body_tasks@ == before.body_tasks@.insert(message, ())
        &&& page.body_errors@ == before.body_errors@.remove(message)
        &&& page.bodies@ == before.bodies@.remove(message)
        &&& page.body_leases@ == before.body_leases@.remove(message)
        &&& page.body_tokens@ == before.body_tokens@.insert(
            message,
            (Self::counted(before.body_tokens@, message) + 1) as u64,
        )
        &&& if retry && section is Some {
            match page.anchor {
                Some((row, offset)) => row@ == message && offset == 0,
                None => false,
            }
        } else {
            page.anchor == before.anchor
        }
    }

    /// What a request for the body of a stored message does.
    pub open spec fn stored_body_requested(
        self,
        before: AiWorkspaceEntity,
        owner: HistoryViewOwner,
        message: Seq<char>,
        section: Option<u64>,
        retry: bool,
    ) -> bool {
        let view = before.view_of(owner.id());
        if !before.history.store_open || view is None || !Self::wants_body(view->0, message, retry) {
            self == before
        } else {
            exists|page: HistoryPageState|
                {
                    let entry = view->0.descriptions@[message];
                    &&& #[trigger] Self::body_asked(page, view->0, message, section, retry)
                    &&& exists|shown: AiWorkspaceEntity|
                        {
                            &&& #[trigger] shown.view_changed(before, owner.id(), page)
                            &&& self == (AiWorkspaceEntity {
                                history: AiHistoryState {
                                    effects: self.history.effects,
                                    ..shown.history
                                },
                                ..shown
                            })
                            &&& self.history.asked() == before.history.asked().push(
                                Effect::LoadBody {
                                    generation: before.history.generation,
                                    owner: owner.id(),
                                    message,
                                    storage_id: entry.storage_id@,
                                    revision: entry.revision,
                                    token: page.body_tokens@[message],
                                    section: if section is Some {
                                        section
                                    } else {
                                        before.shown_section(owner.id(), message)
                                    },
                                },
                            )
                        }
                }
        }
    }

    fn ask_body(page: &mut HistoryPageState, message: &String, section: Option<u64>, retry: bool) -> (res: u64)
        requires
            old(page).wf(),
            Self::counted(old(page).body_tokens@, message@) < u64::MAX,
        ensures
            final(page).wf(),
            Self::body_asked(*final(page), *old(page), message@, section, retry),
            res == final(page).body_tokens@[message@],
    {
        page.body_tasks.insert(message.clone(), ());
        page.body_errors.remove(message);
        page.bodies.remove(message);
        page.body_leases.remove(message);
        if retry && section.is_some() {
            page.anchor = Some((message.clone(), 0));
        }
        let token: u64 = match page.body_tokens.get(message) {
            Some(token) => *token + 1,
            None => 1,
        };
        page.body_tokens.insert(message.clone(), token);
        token
    }

    fn request_stored_body(&mut self, owner: HistoryViewOwner, message: String, section: Option<u64>, retry: bool)
        requires
            old(self).wf(),
            old(self).view_of(owner.id()) is Some ==> Self::counted(
                old(self).view_of(owner.id())->0.body_tokens@,
                message@,
            ) < u64::MAX,
        ensures
            final(self).wf(),
            final(self).stored_body_requested(*old(self), owner, message@, section, retry),
    {
        if !self.history.store_open {
            return;
        }
        let (storage_id, revision, shown_section) = match self.history_view(&owner) {
            Some(page) => {
                let entry = match page.descriptions.get(&message) {
                    Some(entry) => entry,
                    None => {
                        return;
                    },
                };
                if !retry && (page.body_tasks.contains(&message) || page.body_errors.contains(
                    &message,
                )) {
                    return;
                }
                let wanted = match section {
                    Some(section) => Some(section),
                    None => match page.sections.get(&message) {
                        Some(section) => Some(*section),
                        None => None,
                    },
                };
                (entry.storage_id.clone(), entry.revision, wanted)
            },
            None => {
                return;
            },
        };
        let generation = self.history.generation;
        match self.take_view(&owner) {
            Some(page) => {
                let ghost before = page;
                let mut page = page;
                let token = Self::ask_body(&mut page, &message, section, retry);
                let ghost now = page;
                self.replace_view(&owner, page);
                let ghost shown = *self;
                assert(shown.view_changed(*old(self), owner.id(), now));
                assert(Self::body_asked(now, before, message@, section, retry));
                self.history.ask(
                    HistoryEffect::LoadBody {
                        generation,
                        owner,
                        message,
                        storage_id,
                        revision,
                        token,
                        section: shown_section,
                    },
                );
            },
            None => {},
        }
    }

    /// The window once a row shows another section of a message in memory.
    pub open spec fn live_section_shown(page: HistoryPageState, before: HistoryPageState, message: Seq<char>, section: Option<u64>) -> bool {
        &&& page == (HistoryPageState {
            sections: page.sections,
            body_revisions: page.body_revisions,
            ..before
        })
        &&& page.sections@ == match section {
            Some(section) => before.sections@.insert(message, section),
            None => before.sections@,
        }
        &&& page.body_revisions@ == before.body_revisions@.insert(
            message,
            (Self::counted(before.body_revisions@, message) + 1) as u64,
        )
    }

    /// What a request for the body of a message in memory does.
    pub open spec fn live_body_requested(self, before: AiWorkspaceEntity, owner: HistoryViewOwner, message: Seq<char>, section: Option<u64>) -> bool {
        exists|base: HistoryPageState, page: HistoryPageState|
            {
                &&& match before.view_of(owner.id()) {
                    Some(view) => base == view,
                    None => base.is_blank(),
                }
                &&& #[trigger] Self::live_section_shown(page, base, message, section)
                &&& exists|shown: AiWorkspaceEntity|
                    {
                        &&& #[trigger] shown.view_changed(before, owner.id(), page)
                        &&& self == (AiWorkspaceEntity {
                            history: AiHistoryState {
                                effects: self.history.effects,
                                ..shown.history
                            },
                            ..shown
                        })
                        &&& self.history.asked() == before.history.asked().push(
                            Effect::InvalidateMessage(message),
                        )
                    }
            }
    }

    fn show_live_section(page: &mut HistoryPageState, message: &String, section: Option<u64>)
        requires
            old(page).wf(),
            Self::counted(old(page).body_revisions@, message@) < u64::MAX,
        ensures
            final(page).wf(),
            Self::live_section_shown(*final(page), *old(page), message@, section),
    {
        match section {
            Some(section) => {
                page.sections.insert(message.clone(), section);
            },
            None => {},
        }
        let revision: u64 = match page.body_revisions.get(message) {
            Some(revision) => *revision + 1,
            None => 1,
        };
        page.body_revisions.insert(message.clone(), revision);
    }

    fn request_live_body(&mut self, owner: HistoryViewOwner, message: String, section: Option<u64>)
        requires
            old(self).wf(),
            old(self).view_of(owner.id()) is Some ==> Self::counted(
                old(self).view_of(owner.id())->0.body_revisions@,
                message@,
            ) < u64::MAX,
        ensures
            final(self).wf(),
            final(self).live_body_requested(*old(self), owner, message@, section),
    {
        let taken = self.take_view(&owner);
        let mut page = match taken {
            Some(page) => page,
            None => HistoryPageState::new(),
        };
        let ghost base = page;
        Self::show_live_section(&mut page, &message, section);
        let ghost now = page;
        self.replace_view(&owner, page);
        let ghost shown = *self;
        assert(shown.view_changed(*old(self), owner.id(), now));
        assert(Self::live_section_shown(now, base, message@, section));
        self.history.ask(HistoryEffect::InvalidateMessage(message));
    }

    /// A row needs the body of a message. `live_view` says whether the message in memory can be
    /// shown.
    pub fn request_history_owned_body(
        &mut self,
        owner: HistoryViewOwner,
        message: String,
        section: Option<u64>,
        retry: bool,
        live_view: bool,
    )
        requires
            old(self).wf(),
            old(self).view_of(owner.id()) is Some ==> Self::counted(
                old(self).view_of(owner.id())->0.body_tokens@,
                message@,
            ) < u64::MAX && Self::counted(
                old(self).view_of(owner.id())->0.body_revisions@,
                message@,
            ) < u64::MAX,
        ensures
            final(self).wf(),
            if old(self).shows_live(owner, message@) && live_view {
                final(self).live_body_requested(*old(self), owner, message@, section)
            } else {
                final(self).stored_body_requested(*old(self), owner, message@, section, retry)
            },
    {
        if self.live_history_view(&owner, message.as_str()).is_some() && live_view {
            self.request_live_body(owner, message, section);
        } else {
            self.request_stored_body(owner, message, section, retry);
        }
    }

    /// A row of the chat needs the body of a message.
    pub fn request_history_body(
        &mut self,
        conversation: String,
        message: String,
        section: Option<u64>,
        retry: bool,
        live_view: bool,
    )
        requires
            old(self).wf(),
            old(self).history.pages@.dom().contains(conversation@) ==> Self::counted(
                old(self).history.pages@[conversation@].body_tokens@,
                message@,
            ) < u64::MAX && Self::counted(
                old(self).history.pages@[conversation@].body_revisions@,
                message@,
            ) < u64::MAX,
        ensures
            final(self).wf(),
            ({
                let owner = HistoryViewOwner::Main(conversation);
                if old(self).shows_live(owner, message@) && live_view {
                    final(self).live_body_requested(*old(self), owner, message@, section)
                } else {
                    final(self).stored_body_requested(*old(self), owner, message@, section, retry)
                }
            }),
    {
        self.request_history_owned_body(
            HistoryViewOwner::Main(conversation),
            message,
            section,
            retry,
            live_view,
        );
    }

    /// Whether a delivered body is the one that was last asked for and still describes what the
    /// window lists.
    pub open spec fn awaits_body(self, delivery: BodyDelivery) -> bool {
        let view = self.view_of(delivery.owner.id());
        let message = delivery.message@;
        &&& delivery.generation == self.history.generation
        &&& view is Some
        &&& view->0.body_tokens@.dom().contains(message)
        &&& view->0.body_tokens@[message] == delivery.token
        &&& view->0.descriptions@.dom().contains(message)
        &&& view->0.descriptions@[message].revision == delivery.revision
        &&& view->0.descriptions@[message].storage_id@ == delivery.storage_id@
    }

    /// The window once a body came in.
    pub open spec fn body_arrived(page: HistoryPageState, before: HistoryPageState, delivery: BodyDelivery) -> bool {
        let message = delivery.message@;
        &&& page == (HistoryPageState {
            body_tasks: page.body_tasks,
            bodies: page.bodies,
            body_leases: page.body_leases,
            body_errors: page.body_errors,
            body_revisions: page.body_revisions,
            ..before
        })
        &&& page.body_tasks@ == before.body_tasks@.remove(message)
        &&& match delivery.result {
            Ok((body, _)) => {
                &&& page.bodies@ == before.bodies@.insert(message, body)
                &&& page.body_leases@ == before.body_leases@.insert(message, body)
                &&& page.body_errors == before.body_errors
            },
            Err(_) => {
                &&& page.body_errors@ == before.body_errors@.insert(message, ())
                &&& page.bodies == before.bodies
                &&& page.body_leases == before.body_leases
            },
        }
        &&& page.body_revisions@ == before.body_revisions@.insert(
            message,
            (Self::counted(before.body_revisions@, message) + 1) as u64,
        )
    }

    fn take_body(page: &mut HistoryPageState, message: &String, result: &Result<(u64, AiChatMessage), ()>)
        requires
            old(page).wf(),
            Self::counted(old(page).body_revisions@, message@) < u64::MAX,
        ensures
            final(page).wf(),
            forall|delivery: BodyDelivery|
                delivery.message@ == message@ && delivery.result == *result ==> #[trigger] Self::body_arrived(
                    *final(page),
                    *old(page),
                    delivery,
                ),
    {
        page.body_tasks.remove(message);
        match result {
            Ok((body, _)) => {
                page.bodies.insert(message.clone(), *body);
                page.body_leases.insert(message.clone(), *body);
            },
            Err(_) => {
                page.body_errors.insert(message.clone(), ());
            },
        }
        let revision: u64 = match page.body_revisions.get(message) {
            Some(revision) => *revision + 1,
            None => 1,
        };
        page.body_revisions.insert(message.clone(), revision);
    }

    /// A message in memory takes over the header of its stored version.
    pub open spec fn header_taken(self, before: AiWorkspaceEntity, conversation: Seq<char>, message: Seq<char>, header: AiChatMessage) -> bool {
        let conversations = before.conversation_state.conversations@;
        let now = self.conversation_state.conversations@;
        let at = conversation_position(conversations, conversation);
        let row = message_position(conversations[at].messages@, message);
        if at < conversations.len() && row < conversations[at].messages@.len() {
            &&& self == (AiWorkspaceEntity {
                conversation_state: self.conversation_state,
                ..before
            })
            &&& self.conversation_state.active_conversation_id
                == before.conversation_state.active_conversation_id
            &&& now == conversations.update(at, now[at])
            &&& now[at] == (AiConversation { messages: now[at].messages, ..conversations[at] })
            &&& now[at].messages@ == conversations[at].messages@.update(
                row,
                AiChatMessage {
                    original_messages: header.original_messages,
                    provider_parts: header.provider_parts,
                    branches: header.branches,
                    summary_ref: header.summary_ref,
                    transcript_ref: header.transcript_ref,
                    model: header.model,
                    ..conversations[at].messages@[row]
                },
            )
        } else {
            self == before
        }
    }

    fn take_header(&mut self, conversation: &str, message: &str, header: AiChatMessage)
        requires
            old(self).wf(),
        ensures
            final(self).wf(),
            final(self).header_taken(*old(self), conversation@, message@, header),
    {
        match find_conversation(&self.conversation_state.conversations, conversation) {
            Some(at) => {
                match find_message(&self.conversation_state.conversations[at].messages, message) {
                    Some(row) => {
                        let ghost before = self.conversation_state.conversations@;
                        let target = &mut self.conversation_state.conversations[at].messages[row];
                        target.original_messages = header.original_messages;
                        target.provider_parts = header.provider_parts;
                        target.branches = header.branches;
                        target.summary_ref = header.summary_ref;
                        target.transcript_ref = header.transcript_ref;
                        target.model = header.model;
                        proof {
                            let now = self.conversation_state.conversations@;
                            assert(now =~= before.update(at as int, now[at as int]));
                            assert(now[at as int].messages@ =~= before[at as int].messages@.update(
                                row as int,
                                now[at as int].messages@[row as int],
                            ));
                        }
                    },
                    None => {},
                }
            },
            None => {},
        }
    }

    /// What a body that was awaited does.
    pub open spec fn body_shown(self, before: AiWorkspaceEntity, delivery: BodyDelivery) -> bool {
        exists|page: HistoryPageState, shown: AiWorkspaceEntity|
            {
                &&& #[trigger] Self::body_arrived(
                    page,
                    before.view_of(delivery.owner.id())->0,
                    delivery,
                )
                &&& #[trigger] shown.view_changed(before, delivery.owner.id(), page)
                &&& exists|headed: AiWorkspaceEntity|
                    {
                        &&& match (delivery.owner, delivery.result) {
                            (HistoryViewOwner::Main(conversation), Ok((_, header))) => headed.header_taken(
                                shown,
                                conversation@,
                                delivery.message@,
                                header,
                            ),
                            _ => headed == shown,
                        }
                        &&& self == (AiWorkspaceEntity {
                            history: AiHistoryState {
                                effects: self.history.effects,
                                ..headed.history
                            },
                            ..headed
                        })
                        &&& #[trigger] effect_added(
                            headed,
                            self,
                            Effect::InvalidateMessage(delivery.message@),
                        )
                    }
            }
    }

    /// The store delivered the body of a message.
    pub fn apply_history_body(&mut self, delivery: BodyDelivery)
        requires
            old(self).wf(),
            old(self).view_of(delivery.owner.id()) is Some ==> Self::counted(
                old(self).view_of(delivery.owner.id())->0.body_revisions@,
                delivery.message@,
            ) < u64::MAX,
        ensures
            final(self).wf(),
            !old(self).awaits_body(delivery) ==> *final(self) == *old(self),
            old(self).awaits_body(delivery) ==> final(self).body_shown(*old(self), delivery),
    {
        if delivery.generation != self.history.generation {
            return;
        }
        match self.history_view(&delivery.owner) {
            Some(page) => {
                match page.body_tokens.get(&delivery.message) {
                    Some(token) => {
                        if *token != delivery.token {
                            return;
                        }
                    },
                    None => {
                        return;
                    },
                }
                match page.descriptions.get(&delivery.message) {
                    Some(entry) => {
                        if entry.revision != delivery.revision || !text::same(
                            entry.storage_id.as_str(),
                            delivery.storage_id.as_str(),
                        ) {
                            return;
                        }
                    },
                    None => {
                        return;
                    },
                }
            },
            None => {
                return;
            },
        }
        self.show_body(delivery);
    }

    fn show_body(&mut self, delivery: BodyDelivery)
        requires
            old(self).wf(),
            old(self).view_of(delivery.owner.id()) is Some,
            Self::counted(
                old(self).view_of(delivery.owner.id())->0.body_revisions@,
                delivery.message@,
            ) < u64::MAX,
        ensures
            final(self).wf(),
            final(self).body_shown(*old(self), delivery),
    {
        let taken = self.take_view(&delivery.owner);
        let mut page = match taken {
            Some(page) => page,
            None => HistoryPageState::new(),
        };
        let ghost before = page;
        Self::take_body(&mut page, &delivery.message, &delivery.result);
        let ghost now = page;
        assert(Self::body_arrived(now, before, delivery));
        self.replace_view(&delivery.owner, page);
        let ghost shown = *self;
        assert(shown.view_changed(*old(self), delivery.owner.id(), now));
        match (&delivery.owner, delivery.result) {
            (HistoryViewOwner::Main(conversation), Ok((_, header))) => {
                self.take_header(conversation.as_str(), delivery.message.as_str(), header);
            },
            _ => {},
        }
        let ghost headed = *self;
        self.history.ask(HistoryEffect::InvalidateMessage(delivery.message));
        assert(effect_added(headed, *self, Effect::InvalidateMessage(delivery.message@)));
    }
}

/// The host was asked for one thing more.
pub open spec fn effect_added(before: AiWorkspaceEntity, after: AiWorkspaceEntity, effect: Effect) -> bool {
    after.history.asked() == before.history.asked().push(effect)
}

} // verus!
