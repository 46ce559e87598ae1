//! The history: conversations, their journal, and the pages that a window shows.

use vstd::prelude::*;

use crate::ai::messages::{AiChatMessage, AiChatRole};
use crate::ai_state::bodies::BodyDelivery;
use crate::ai_state::conversations::page_of;
use crate::ai_state::entity::{
    AiWorkspaceEntity, Effect, HistoryPageState, HistoryStatus, PageDirection,
};
use crate::ai_state::journal::{
    newer, newer_events, newer_extra, Changes, JournalBatch, Mutation, PendingMessage,
    RevisionClock, StreamDelta,
};
use crate::ai_state::model::{
    conversation_position, AiConversation, ConversationHead, HistoryViewOwner, MessageDescriptor, MessagePage,
};
use crate::ai_state::pages::{page_delivery, page_query, run_page_read, PageDelivery, PageQuery, PageRead};
use crate::ai_state::window::{
    ids_of, in_sequence, kept_of, listed_once, lists, lists_all_of, preview_message, taken_in,
    window_of,
};
use crate::table::Key;

verus! {

/// The store is asked for a page of the branch that it has, and a page that continues another only
/// where that is the branch on show. Newer pages are read behind the cursor, a page around a message
/// up to that message, and all others before the cursor.
pub proof fn law_pages_are_of_the_branch_on_show(
    head: Option<&str>,
    direction: PageDirection,
    expected: &str,
    res: Result<PageQuery, ()>,
)
    requires
        call_ensures(page_query, (head, direction, expected), res),
    ensures
        head is None ==> res is Err,
        head is Some && (direction == PageDirection::Initial || direction is Around) ==> res is Ok,
        head is Some && (direction == PageDirection::Older || direction == PageDirection::Newer) ==> (
        res is Ok <==> head->0@ == expected@),
        res is Ok ==> res->Ok_0.branch@ == head->0@,
        res is Ok && direction == PageDirection::Newer ==> res->Ok_0.read == PageRead::After,
        res is Ok && (direction == PageDirection::Initial || direction == PageDirection::Older)
            ==> res->Ok_0.read == PageRead::Before,
        res is Ok && direction is Around ==> res->Ok_0.read is At && (res->Ok_0.read->At_0
            == direction->Around_0 + 1 || (direction->Around_0 == u64::MAX && res->Ok_0.read->At_0
            == u64::MAX)),
{
}

/// A page of a run is read behind the cursor exactly where newer messages are asked for.
pub proof fn law_runs_are_paged_both_ways(older: Option<bool>, res: PageRead)
    requires
        call_ensures(run_page_read, (older,), res),
    ensures
        res == PageRead::After <==> older is Some && !older->0,
        res == PageRead::Before <==> older is None || older->0,
{
}

/// A page is handed on with the request it answers.
pub proof fn law_pages_answer_their_request(
    generation: u64,
    id: String,
    direction: PageDirection,
    read: Result<(String, MessagePage), ()>,
    res: PageDelivery,
)
    requires
        call_ensures(page_delivery, (generation, id, direction, read), res),
    ensures
        res.generation == generation,
        res.id@ == id@,
        res.direction == direction,
        res.result is Ok <==> read is Ok,
        read matches Ok((branch, page)) ==> res.branch@ == branch@ && res.result == Ok::<MessagePage, ()>(
            page,
        ),
{
}

/// A page is asked for where the store is open and the application stays so; a fresh one only where
/// nothing of the conversation is unsaved, and one that continues another only where there is more
/// and none is on its way.
pub proof fn law_pages_are_asked_for_in_turn(ai: &mut AiWorkspaceEntity, id: String, direction: PageDirection)
    requires
        call_ensures(AiWorkspaceEntity::load_history_page, (ai, id, direction), ()),
        ai.history.page_generation < u64::MAX,
    ensures
        ({
            let fresh = direction == PageDirection::Initial || direction is Around;
            let known = old(ai).history.pages@.dom().contains(id@);
            let page = old(ai).history.pages@[id@];
            let more = direction == PageDirection::Older && page.before is Some || direction
                == PageDirection::Newer && page.after is Some;
            let unsaved = exists|message: Seq<char>| #[trigger]
                old(ai).history.changes.messages@.dom().contains((id@, message)) && !old(
                    ai).agents.message_runs@.dom().contains(message);
            let asks = !old(ai).history.quitting && old(ai).history.store_open && if fresh {
                !unsaved
            } else {
                known && !page.loading && more
            };
            &&& final(ai).history.page_generation == old(ai).history.page_generation + if asks {
                1int
            } else {
                0int
            }
            &&& asks ==> final(ai).history.asked().len() == old(ai).history.asked().len() + 1 && final(
                ai).history.asked().last() is LoadPage && final(
                ai).history.asked().last()->LoadPage_conversation == id@ && final(
                ai).history.asked().last()->LoadPage_direction == direction && final(
                ai).history.pages@[id@].loading
            &&& asks && direction == PageDirection::Older ==> final(
                ai).history.asked().last()->LoadPage_cursor == page.before
            &&& asks && direction == PageDirection::Newer ==> final(
                ai).history.asked().last()->LoadPage_cursor == page.after
            &&& asks && fresh ==> final(ai).history.asked().last()->LoadPage_cursor is None
            &&& !asks ==> final(ai).history.asked() == old(ai).history.asked()
        }),
{
}

/// Scrolling loads more only of the conversation on show, while nothing is followed, nothing is on its
/// way and nothing failed.
pub proof fn law_scrolling_loads_what_is_on_show(ai: &mut AiWorkspaceEntity, conversation: String, older: bool)
    requires
        call_ensures(
            AiWorkspaceEntity::request_visible_history_page,
            (ai, conversation, older),
            (),
        ),
        ai.history.page_generation < u64::MAX,
        ai.conversation_state.active_conversation_id is None
            || ai.conversation_state.active_conversation_id->0@ != conversation@
            || ai.chat_ui.following_tail || !ai.history.pages@.dom().contains(conversation@)
            || ai.history.pages@[conversation@].loading || ai.history.pages@[conversation@].failed,
    ensures
        *final(ai) == *old(ai),
{
}

/// What a window shows of a page: each message once, in the order of the store, a hundred at most. A
/// window that grows towards older messages drops the newest, and the other way round.
pub proof fn law_windows_show_messages_in_order(
    window: &mut HistoryPageState,
    page: MessagePage,
    direction: PageDirection,
    conversation: &str,
    branch: &str,
    res: Vec<MessageDescriptor>,
)
    requires
        call_ensures(HistoryPageState::merge, (window, page, direction, conversation, branch), res),
    ensures
        res@.len() <= 100,
        forall|i: int, j: int|
            0 <= i < j < res@.len() ==> (#[trigger] res@[i]).sequence <= (
            #[trigger] res@[j]).sequence && res@[i].id@ != res@[j].id@,
        forall|i: int|
            0 <= i < res@.len() ==> final(window).descriptions@.dom().contains(
                (#[trigger] res@[i]).id@,
            ) && final(window).descriptions@[res@[i].id@] == res@[i],
{
    let full = choose|full: Seq<MessageDescriptor>| #[trigger]
        final(window).merged_from(
            *old(window),
            page,
            direction,
            conversation@,
            branch@,
            full,
            res@,
        );
    lemma_window(full, direction);
    let list = window_of(full, direction);
    let map = old(window).merged(page, direction);
    assert forall|i: int, j: int| 0 <= i < j < list.len() implies (#[trigger] list[i]).sequence <= (
    #[trigger] list[j]).sequence && list[i].id@ != list[j].id@ by {
        let shift: int = if full.len() <= 100 || direction == PageDirection::Older {
            0
        } else {
            full.len() - 100
        };
        assert(list[i] == full[i + shift]);
        assert(list[j] == full[j + shift]);
    }
    assert forall|i: int| 0 <= i < list.len() implies final(window).descriptions@.dom().contains(
        (#[trigger] list[i]).id@,
    ) && final(window).descriptions@[list[i].id@] == list[i] by {
        let shift: int = if full.len() <= 100 || direction == PageDirection::Older {
            0
        } else {
            full.len() - 100
        };
        assert(list[i] == full[i + shift]);
        assert(lists(full, full[i + shift].id@));
        assert(ids_of(list)[i] == list[i].id@);
        assert(ids_of(list).contains(list[i].id@));
    }
}

proof fn lemma_window(full: Seq<MessageDescriptor>, direction: PageDirection)
    ensures
        window_of(full, direction).len() <= 100,
        full.len() <= 100 ==> window_of(full, direction) == full,
        full.len() > 100 ==> window_of(full, direction).len() == 100,
{
}

/// Where a page fits into the window beside what it shows, every message of both is shown.
pub proof fn law_pages_that_fit_are_shown_whole(
    window: &mut HistoryPageState,
    page: MessagePage,
    direction: PageDirection,
    conversation: &str,
    branch: &str,
    res: Vec<MessageDescriptor>,
    at: int,
)
    requires
        call_ensures(HistoryPageState::merge, (window, page, direction, conversation, branch), res),
        res@.len() < 100,
        0 <= at < page.messages@.len(),
    ensures
        final(window).descriptions@.dom().contains(page.messages@[at].id@),
        direction == PageDirection::Older || direction == PageDirection::Newer ==> forall|id: Seq<char>|
            old(window).descriptions@.dom().contains(id) ==> #[trigger] final(
                window).descriptions@.dom().contains(id),
{
    let full = choose|full: Seq<MessageDescriptor>| #[trigger]
        final(window).merged_from(
            *old(window),
            page,
            direction,
            conversation@,
            branch@,
            full,
            res@,
        );
    lemma_window(full, direction);
    let map = old(window).merged(page, direction);
    let base = if direction.fresh() {
        Map::empty()
    } else {
        old(window).descriptions@
    };
    lemma_taken_in(base, page.messages@);
    assert(map.dom().contains(page.messages@[at].id@));
    assert forall|id: Seq<char>| map.dom().contains(id) implies #[trigger] final(
        window).descriptions@.dom().contains(id) by {
        assert(lists(full, id));
        let i = choose|i: int| 0 <= i < full.len() && (#[trigger] full[i]).id@ == id;
        assert(ids_of(res@)[i] == id);
        assert(ids_of(res@).contains(id));
    }
}

proof fn lemma_taken_in(map: Map<Seq<char>, MessageDescriptor>, list: Seq<MessageDescriptor>)
    ensures
        forall|id: Seq<char>| map.dom().contains(id) ==> #[trigger] taken_in(map, list).dom().contains(id),
        forall|i: int|
            0 <= i < list.len() ==> taken_in(map, list).dom().contains((#[trigger] list[i]).id@),
    decreases list.len(),
{
    if list.len() > 0 {
        lemma_taken_in(map, list.drop_last());
        assert forall|id: Seq<char>| map.dom().contains(id) implies #[trigger] taken_in(
            map,
            list,
        ).dom().contains(id) by {
            assert(taken_in(map, list.drop_last()).dom().contains(id));
        }
        assert forall|i: int| 0 <= i < list.len() implies taken_in(map, list).dom().contains(
            (#[trigger] list[i]).id@,
        ) by {
            if i < list.len() - 1 {
                assert(list.drop_last()[i] == list[i]);
            }
        }
    }
}

/// Until its text is there a message is shown by its preview.
pub proof fn law_previews_stand_for_messages(entry: &MessageDescriptor, res: AiChatMessage)
    requires
        call_ensures(preview_message, (entry,), res),
    ensures
        res.id@ == entry.id@,
        res.role == entry.role,
        res.content@ == entry.preview@,
        res.timestamp_ms == entry.timestamp_ms,
        !res.is_streaming,
{
}

/// The list of conversations goes on exactly where the store has more than a page of fifty, and from
/// the last one of the page.
pub proof fn law_lists_go_on_where_there_is_more(
    list: &mut crate::ai_state::entity::ConversationListPage,
    heads: &Vec<ConversationHead>,
)
    requires
        call_ensures(crate::ai_state::entity::ConversationListPage::advance, (list, heads), ()),
    ensures
        final(list).initialized,
        !final(list).failed,
        final(list).has_more <==> heads@.len() > 50,
        final(list).running == old(list).running,
        heads@.len() == 0 ==> final(list).cursor == old(list).cursor,
        0 < heads@.len() ==> {
            let last = if heads@.len() > 50 {
                heads@[49]
            } else {
                heads@.last()
            };
            &&& final(list).cursor is Some
            &&& crate::ai_state::entity::list_cursor_view(final(list).cursor) == Some(
                (last.conversation.updated_at_ms, last.conversation.id@),
            )
        },
{
    if heads@.len() > 50 {
        assert(page_of(heads@).last() == heads@[49]);
    }
}

/// A page of the list is asked for where the store is open, nothing of it is on its way, it was not
/// read to its end, and the application stays open.
pub proof fn law_lists_are_asked_for_in_turn(ai: &mut AiWorkspaceEntity, archived: bool)
    requires
        call_ensures(AiWorkspaceEntity::request_conversation_list_page, (ai, archived), ()),
    ensures
        ({
            let page = if archived {
                old(ai).history.archived_list
            } else {
                old(ai).history.current_list
            };
            let now = if archived {
                final(ai).history.archived_list
            } else {
                final(ai).history.current_list
            };
            let asks = old(ai).history.store_open && !page.running && (!page.initialized
                || page.has_more) && !old(ai).history.quitting;
            &&& asks ==> now.running && final(ai).history.asked().len() == old(
                ai).history.asked().len() + 1 && final(
                ai).history.asked().last() is LoadConversations && final(
                ai).history.asked().last()->LoadConversations_archived == archived
            &&& !asks ==> *final(ai) == *old(ai)
        }),
{
}

/// Conversations of the store are listed behind those that are known, each once; one that was deleted
/// here does not come back.
pub proof fn law_listed_conversations_are_added(
    ai: &mut AiWorkspaceEntity,
    archived: bool,
    heads: Vec<ConversationHead>,
    at: int,
)
    requires
        call_ensures(
            AiWorkspaceEntity::apply_conversation_list,
            (ai, archived, Ok::<Vec<ConversationHead>, ()>(heads)),
            (),
        ),
        0 <= at < heads@.len(),
        at < 50,
    ensures
        ({
            let id = heads@[at].conversation.id@;
            let before = old(ai).conversation_state.conversations@;
            let after = final(ai).conversation_state.conversations@;
            &&& before.len() <= after.len()
            &&& after.take(before.len() as int) == before
            &&& !old(ai).history.deleted_conversations@.dom().contains(id) ==> exists|i: int|
                0 <= i < after.len() && (#[trigger] after[i]).id@ == id
            &&& old(ai).history.deleted_conversations@.dom().contains(id) ==> forall|i: int|
                before.len() <= i < after.len() ==> (#[trigger] after[i]).id@ != id
        }),
{
    let page = page_of(heads@);
    assert(page[at] == heads@[at]);
    lemma_listed(
        old(ai).listing(),
        old(ai).history.deleted_conversations@.dom(),
        page,
        at,
    );
}

proof fn lemma_listed(
    before: crate::ai_state::conversations::Listing,
    deleted: Set<Seq<char>>,
    heads: Seq<ConversationHead>,
    at: int,
)
    requires
        -1 <= at < heads.len(),
    ensures
        ({
            let after = crate::ai_state::conversations::listed(before, deleted, heads);
            &&& before.0.len() <= after.0.len()
            &&& after.0.take(before.0.len() as int) == before.0
            &&& at >= 0 && !deleted.contains(heads[at].conversation.id@) ==> exists|i: int|
                0 <= i < after.0.len() && (#[trigger] after.0[i]).id@ == heads[at].conversation.id@
            &&& forall|i: int|
                before.0.len() <= i < after.0.len() ==> !deleted.contains((#[trigger] after.0[i]).id@)
        }),
    decreases heads.len(),
{
    if heads.len() == 0 {
        assert(before.0.take(before.0.len() as int) =~= before.0);
    } else {
        let rest = heads.drop_last();
        let step: int = if 0 <= at < rest.len() {
            at
        } else {
            -1
        };
        lemma_listed(before, deleted, rest, step);
        let earlier = crate::ai_state::conversations::listed(before, deleted, rest);
        let after = crate::ai_state::conversations::listed(before, deleted, heads);
        assert(after.0.take(before.0.len() as int) =~= before.0) by {
            assert forall|i: int| 0 <= i < before.0.len() implies after.0[i] == before.0[i] by {
                assert(earlier.0.take(before.0.len() as int)[i] == before.0[i]);
            }
        }
        if at >= 0 && !deleted.contains(heads[at].conversation.id@) {
            if at < rest.len() {
                let i = choose|i: int|
                    0 <= i < earlier.0.len() && (#[trigger] earlier.0[i]).id@
                        == rest[at].conversation.id@;
                assert(after.0[i] == earlier.0[i]);
            } else if crate::ai_state::conversations::is_news(
                earlier.0,
                deleted,
                heads.last().conversation.id@,
            ) {
                assert(after.0[earlier.0.len() as int].id@ == heads[at].conversation.id@);
            } else {
                assert(after.0 == earlier.0);
            }
        }
        assert forall|i: int| before.0.len() <= i < after.0.len() implies !deleted.contains(
            (#[trigger] after.0[i]).id@,
        ) by {
            if i < earlier.0.len() {
                assert(after.0[i] == earlier.0[i]);
            }
        }
    }
}

proof fn lemma_place(conversations: Seq<AiConversation>, id: Seq<char>)
    ensures
        0 <= conversation_position(conversations, id) <= conversations.len(),
    decreases conversations.len(),
{
    if conversations.len() > 0 && conversations[0].id@ != id {
        lemma_place(conversations.drop_first(), id);
    }
}

/// A new conversation stands first, empty, and is the one on show; the others stay as many as they
/// were, in their order.
pub proof fn law_new_conversations_stand_first(
    ai: &mut AiWorkspaceEntity,
    id: String,
    title: Option<String>,
    now: i64,
    profile: Option<String>,
    clock: &mut RevisionClock,
    res: String,
    at: int,
)
    requires
        call_ensures(
            AiWorkspaceEntity::create_conversation,
            (ai, id, title, now, profile, clock),
            res,
        ),
        0 <= at < ai.conversation_state.conversations@.len(),
    ensures
        res@ == id@,
        final(ai).conversation_state.active_conversation_id == Some(id),
        final(ai).conversation_state.conversations@.len() == old(
            ai).conversation_state.conversations@.len() + 1,
        final(ai).conversation_state.conversations@[0].id@ == id@,
        final(ai).conversation_state.conversations@[0].messages@.len() == 0,
        final(ai).conversation_state.conversations@[0].created_at_ms == now,
        title is Some ==> final(ai).conversation_state.conversations@[0].title@ == title->0@,
        title is None ==> final(ai).conversation_state.conversations@[0].title@.len() == 0,
        final(ai).conversation_state.conversations@[at + 1].id == old(
            ai).conversation_state.conversations@[at].id,
        final(ai).conversation_state.conversations@[at + 1].title == old(
            ai).conversation_state.conversations@[at].title,
        final(ai).history.changes.created@.dom().contains(id@),
        final(clock).last == old(clock).last + 1,
{
    let after = final(ai).conversation_state.conversations@;
    let rest = after.drop_first();
    assert(rest[at] == after[at + 1]);
    let previous = old(ai).conversation_state.active_conversation_id;
    if previous is Some {
        let before = old(ai).conversation_state.conversations@;
        let place = conversation_position(before, previous->0@);
        lemma_place(before, previous->0@);
        if place < before.len() && place != at {
            assert(before.update(place, rest[place])[at] == before[at]);
        }
    }
}

/// A conversation is made only where none is on show.
pub proof fn law_conversations_are_made_on_demand(
    ai: &mut AiWorkspaceEntity,
    id: String,
    title: Option<String>,
    now: i64,
    profile: Option<String>,
    clock: &mut RevisionClock,
    res: String,
)
    requires
        call_ensures(
            AiWorkspaceEntity::ensure_conversation,
            (ai, id, title, now, profile, clock),
            res,
        ),
    ensures
        old(ai).conversation_state.active_conversation_id is Some ==> res@ == old(
            ai).conversation_state.active_conversation_id->0@ && *final(ai) == *old(ai),
        old(ai).conversation_state.active_conversation_id is None ==> res@ == id@ && final(
            ai).conversation_state.conversations@.len() == old(
            ai).conversation_state.conversations@.len() + 1,
{
}

/// A message is added at the end of its conversation, and is to be saved; no other conversation is
/// touched.
pub proof fn law_messages_are_added_at_the_end(
    ai: &mut AiWorkspaceEntity,
    conversation: &str,
    message: AiChatMessage,
    turns: usize,
    clock: &mut RevisionClock,
    at: int,
)
    requires
        call_ensures(AiWorkspaceEntity::add_message, (ai, conversation, message, turns, clock), ()),
        0 <= at < ai.conversation_state.conversations@.len(),
        ai.conversation_state.conversations@[at].id@ == conversation@,
        forall|j: int|
            0 <= j < at ==> (#[trigger] ai.conversation_state.conversations@[j]).id@ != conversation@,
    ensures
        final(ai).conversation_state.conversations@[at].messages@ == old(
            ai).conversation_state.conversations@[at].messages@.push(message),
        forall|j: int|
            0 <= j < old(ai).conversation_state.conversations@.len() && j != at ==> #[trigger] final(
                ai).conversation_state.conversations@[j] == old(
                ai).conversation_state.conversations@[j],
        old(ai).conversation_state.conversations@[at].message_count < usize::MAX ==> final(
            ai).conversation_state.conversations@[at].message_count == old(
            ai).conversation_state.conversations@[at].message_count + 1,
        final(ai).history.changes.metadata@.dom().contains(conversation@),
        final(clock).last > old(clock).last,
{
    crate::ai_state::model::lemma_conversation_position(
        old(ai).conversation_state.conversations@,
        conversation@,
        at,
    );
    let after = final(ai).conversation_state.conversations@;
    assert(after[at].id@ == conversation@);
    assert(crate::ai_state::model::has_conversation(after, conversation@));
}

/// A conversation with a message that is not saved says so.
pub proof fn law_unsaved_messages_are_known(ai: &AiWorkspaceEntity, conversation: &str, message: &str, res: bool, pending: bool)
    requires
        call_ensures(AiWorkspaceEntity::history_has_unsaved_messages, (ai, conversation), res),
        call_ensures(
            AiWorkspaceEntity::history_message_is_pending,
            (ai, conversation, message),
            pending,
        ),
    ensures
        pending <==> ai.history.changes.messages@.dom().contains((conversation@, message@)),
        pending && !ai.agents.message_runs@.dom().contains(message@) ==> res,
        res ==> exists|other: Seq<char>| #[trigger]
            ai.history.changes.messages@.dom().contains((conversation@, other)),
{
    if res {
        let other = choose|other: Seq<char>| #[trigger]
            ai.history.changes.messages@.dom().contains((conversation@, other))
                && !ai.agents.message_runs@.dom().contains(other);
        assert(ai.history.changes.messages@.dom().contains((conversation@, other)));
    }
}

/// A deleted conversation is to be deleted from the store, and nothing else of it is to be written;
/// the messages of others stay to be written.
pub proof fn law_deleted_conversations_are_not_written(
    ai: &mut AiWorkspaceEntity,
    conversation: &str,
    clock: &mut RevisionClock,
    other: Seq<char>,
    message: Seq<char>,
)
    requires
        call_ensures(AiWorkspaceEntity::history_deleted, (ai, conversation, clock), ()),
        other != conversation@,
    ensures
        final(ai).history.changes.deleted@.dom().contains(conversation@),
        !final(ai).history.changes.messages@.dom().contains((conversation@, message)),
        !final(ai).history.changes.metadata@.dom().contains(conversation@),
        !final(ai).history.changes.created@.dom().contains(conversation@),
        final(ai).history.changes.messages@.dom().contains((other, message)) <==> old(
            ai).history.changes.messages@.dom().contains((other, message)),
        final(clock).last == old(clock).last + 1,
{
}

/// A deleted message is no longer to be written, and its deletion is.
pub proof fn law_deleted_messages_are_deleted_from_the_store(
    ai: &mut AiWorkspaceEntity,
    conversation: &str,
    id: &str,
    clock: &mut RevisionClock,
)
    requires
        call_ensures(AiWorkspaceEntity::history_message_deleted, (ai, conversation, id, clock), ()),
    ensures
        !final(ai).history.changes.messages@.dom().contains((conversation@, id@)),
        final(ai).history.changes.extra@.len() == old(ai).history.changes.extra@.len() + 1,
        ({
            let change = final(ai).history.changes.extra@.last().1@;
            &&& change is DeleteMessage
            &&& change->DeleteMessage_conversation_id == conversation@
            &&& change->DeleteMessage_message_id == id@
        }),
{
}

/// What was changed up to a revision is done once that revision is on disk, and nothing later is.
pub proof fn law_acknowledged_changes_are_done(
    changes: &mut Changes,
    revision: u64,
    key: (Seq<char>, Seq<char>),
    conversation: Seq<char>,
)
    requires
        call_ensures(Changes::acknowledged, (changes, revision), ()),
    ensures
        final(changes).messages@.dom().contains(key) <==> old(changes).messages@.dom().contains(key)
            && old(changes).messages@[key] > revision,
        final(changes).metadata@.dom().contains(conversation) <==> old(
            changes).metadata@.dom().contains(conversation) && old(changes).metadata@[conversation]
            > revision,
        final(changes).created@.dom().contains(conversation) <==> old(
            changes).created@.dom().contains(conversation) && old(changes).created@[conversation]
            > revision,
        final(changes).deleted@.dom().contains(conversation) <==> old(
            changes).deleted@.dom().contains(conversation) && old(changes).deleted@[conversation]
            > revision,
        final(changes).messages@.dom().contains(key) ==> final(changes).messages@[key] == old(
            changes).messages@[key],
        final(changes).revision == old(changes).revision,
{
}

/// Revisions only grow, one by one; a clock that catches up never goes back.
pub proof fn law_revisions_grow(clock: &mut RevisionClock, res: u64, other: &mut RevisionClock, revision: u64)
    requires
        call_ensures(RevisionClock::next, (clock,), res),
        call_ensures(RevisionClock::catch_up, (other, revision), ()),
        clock.last < u64::MAX,
    ensures
        res == old(clock).last + 1,
        final(clock).last == res,
        final(other).last >= old(other).last,
        final(other).last >= revision,
        final(other).last == old(other).last || final(other).last == revision,
{
}

/// A message that streams is written as what was added to it, where the store has a base of it; any
/// other message is written whole.
pub proof fn law_messages_are_written_whole_or_grown(
    batch: JournalBatch,
    deltas: Vec<Option<StreamDelta>>,
    captures: &Vec<u64>,
    res: JournalBatch,
    at: int,
)
    requires
        call_ensures(JournalBatch::prepare, (batch, deltas, captures), res),
        0 <= at < batch.pending@.len(),
    ensures
        res.operations@.len() == batch.operations@.len() + batch.pending@.len(),
        ({
            let pending = batch.pending@[at];
            let write = res.operations@[batch.operations@.len() + at]@;
            let grows = pending.base is Some && deltas@[at] is Some;
            &&& grows ==> write is StreamText && write->StreamText_message_id == pending.message.id@
                && write->StreamText_delta == deltas@[at]->0.delta@ && write->StreamText_conversation_id
                == pending.conversation@ && write->StreamText_branch_id == pending.branch@
            &&& !grows ==> write is PutMessage && write->PutMessage_message == crate::ai::messages::said(
                pending.message,
            ) && write->PutMessage_conversation_id == pending.conversation@
                && write->PutMessage_branch_id == pending.branch@ && write->PutMessage_revision
                == pending.revision
        }),
{
    let all = crate::ai_state::journal::mutations_view(res.operations@);
    let first = crate::ai_state::journal::mutations_view(batch.operations@);
    assert(all.len() == res.operations@.len());
    assert(first.len() == batch.operations@.len());
    assert(all[first.len() + at] == res.operations@[batch.operations@.len() + at]@);
}

/// A write starts only where none is under way, the store is ready and there is something to write;
/// where one cannot be put into writing, none starts any more.
pub proof fn law_one_write_at_a_time(ai: &mut AiWorkspaceEntity, other: &mut AiWorkspaceEntity)
    requires
        call_ensures(AiWorkspaceEntity::start_history_write, (ai,), ()),
        call_ensures(AiWorkspaceEntity::refuse_history_write, (other,), ()),
    ensures
        old(ai).history.write_running || old(ai).history.status != HistoryStatus::Ready || old(
            ai).history.writer is None ==> *final(ai) == *old(ai),
        !old(ai).history.write_running && final(ai).history.write_running ==> final(
            ai).history.asked().len() == old(ai).history.asked().len() + 1 && final(
            ai).history.asked().last() is Write,
        final(ai).history.changes == old(ai).history.changes,
        !final(other).history.write_running,
        final(other).history.status == HistoryStatus::Failed,
        final(other).history.changes == old(other).history.changes,
{
}

/// A text that arrives is shown only where it is the one that was asked for last, of the message as it
/// is now.
pub proof fn law_only_the_awaited_text_is_shown(ai: &mut AiWorkspaceEntity, delivery: BodyDelivery)
    requires
        call_ensures(AiWorkspaceEntity::apply_history_body, (ai, delivery), ()),
        delivery.owner is Main,
        delivery.generation != ai.history.generation || !ai.history.pages@.dom().contains(
            delivery.owner->Main_0@,
        ) || !ai.history.pages@[delivery.owner->Main_0@].descriptions@.dom().contains(
            delivery.message@,
        ) || ai.history.pages@[delivery.owner->Main_0@].descriptions@[delivery.message@].revision
            != delivery.revision || ai.history.pages@[delivery.owner->Main_0@].body_tokens@[delivery.message@]
            != delivery.token,
    ensures
        *final(ai) == *old(ai),
{
}

/// A text that was awaited is shown, and an error is noted instead where there is none.
pub proof fn law_the_awaited_text_is_shown(ai: &mut AiWorkspaceEntity, delivery: BodyDelivery)
    requires
        call_ensures(AiWorkspaceEntity::apply_history_body, (ai, delivery), ()),
        ai.awaits_body(delivery),
        delivery.owner is Archive,
    ensures
        ({
            let owner = delivery.owner.id();
            let message = delivery.message@;
            let now = final(ai).view_of(owner);
            &&& now is Some
            &&& !now->0.body_tasks@.dom().contains(message)
            &&& delivery.result matches Ok((body, _)) ==> now->0.bodies@.dom().contains(message)
                && now->0.bodies@[message] == body
            &&& delivery.result is Err ==> now->0.body_errors@.dom().contains(message)
        }),
{
}

/// Without a writer nothing is retried, and one retry at a time is under way; a save of a stream waits
/// for its timer.
pub proof fn law_retries_and_timers_run_once(ai: &mut AiWorkspaceEntity, other: &mut AiWorkspaceEntity)
    requires
        call_ensures(AiWorkspaceEntity::retry_history_write, (ai,), ()),
        call_ensures(AiWorkspaceEntity::schedule_history_stream_save, (other,), ()),
    ensures
        final(ai).history.asked().len() == old(ai).history.asked().len() + if old(
            ai).history.writer is Some && !old(ai).history.retry_running {
            1int
        } else {
            0int
        },
        final(other).history.save_timer_running,
        final(other).history.asked().len() == old(other).history.asked().len() + if old(
            other).history.save_timer_running {
            0int
        } else {
            1int
        },
{
}

/// The history takes messages only while it is ready: the store was opened and takes writes, the
/// application stays open, and the conversation on show is loaded.
pub proof fn law_the_history_says_whether_it_is_ready(ai: &AiWorkspaceEntity, res: bool)
    requires
        call_ensures(AiWorkspaceEntity::history_ready, (ai,), res),
    ensures
        res ==> !ai.history.quitting && ai.history.status == HistoryStatus::Ready
            && ai.chat_initialization_error is None,
        ai.history.quitting ==> !res,
        !ai.history.quitting && ai.history.status == HistoryStatus::Ready
            && ai.chat_initialization_error is None && ai.history.writes()
            && ai.conversation_state.active_conversation_id is None ==> res,
{
}

} // verus!
