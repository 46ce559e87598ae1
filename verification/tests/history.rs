use oxideterm_workspace::ai::messages::{AiChatMessage, AiChatRole};
use oxideterm_workspace::ai_state::archives::ArchiveDelivery;
use oxideterm_workspace::ai_state::bodies::BodyDelivery;
use oxideterm_workspace::ai_state::compaction::{
    CompactionPlan, CompactionRequest, CompactionReview, CompactionStep, SummaryConfig, SummaryKey,
    SummaryStart, SummaryStream,
};
use oxideterm_workspace::ai::checkpoint::SummaryEvent;
use oxideterm_workspace::ai_state::deliveries::{Delivery, OpenedStore};
use oxideterm_workspace::ai_state::entity::{
    AiWorkspaceEntity, HistoryEffect, HistoryRange, HistoryStatus, HistoryWriteState, PageDirection,
};
use oxideterm_workspace::ai_state::journal::{HistoryEvent, HistoryMutation, RevisionClock};
use oxideterm_workspace::ai_state::model::{
    AgentConversationOptions, AiConversation, ConversationHead, HistoryViewOwner, MessageDescriptor,
    MessagePage,
};
use oxideterm_workspace::ai_state::pages::{
    page_delivery, page_query, run_page_read, PageDelivery, PageRead,
};
use oxideterm_workspace::json::JsonTree;

fn options() -> AgentConversationOptions {
    AgentConversationOptions { enabled: true, default_model: None }
}

fn message(id: &str, content: &str) -> AiChatMessage {
    AiChatMessage::plain(id.to_string(), AiChatRole::User, content.to_string(), 1)
}

fn conversation(id: &str, archived: bool) -> AiConversation {
    AiConversation {
        id: id.to_string(),
        title: format!("Title of {id}"),
        messages: Vec::new(),
        created_at_ms: 1,
        updated_at_ms: 2,
        origin: "sidebar".to_string(),
        profile_id: None,
        message_count: 0,
        turn_count: 0,
        session_id: None,
        agent_options: None,
        archived,
        messages_loaded: false,
    }
}

fn head(id: &str) -> ConversationHead {
    ConversationHead { conversation: conversation(id, false), active_branch: "main".to_string() }
}

fn opened(heads: Vec<ConversationHead>) -> (AiWorkspaceEntity, RevisionClock) {
    let mut ai = AiWorkspaceEntity::new(options());
    let mut clock = RevisionClock { last: 0 };
    ai.initialize_history();
    assert_eq!(ai.history.status, HistoryStatus::Loading);
    let store = OpenedStore { heads, revision: 10, writer: Some(HistoryWriteState::Ready) };
    ai.apply_delivery(
        Delivery::Initialized { generation: ai.history.generation, store: Ok(store) },
        &mut clock,
        0,
    );
    ai.history.effects.clear();
    (ai, clock)
}

fn descriptor(id: &str, sequence: u64) -> MessageDescriptor {
    MessageDescriptor {
        id: id.to_string(),
        storage_id: format!("stored-{id}"),
        revision: 1,
        sequence,
        role: AiChatRole::User,
        preview: format!("preview of {id}"),
        timestamp_ms: 1,
    }
}

#[test]
fn an_opened_store_lists_its_conversations() {
    let (ai, clock) = opened(vec![head("c1"), head("c2")]);
    assert_eq!(ai.history.status, HistoryStatus::Ready);
    assert_eq!(ai.conversation_state.conversations.len(), 2);
    assert_eq!(ai.history.committed, 10);
    assert_eq!(clock.last, 10);
    assert_eq!(ai.history.branch("c1"), "main");
    assert_eq!(ai.history.branch("unknown"), "main");
}

#[test]
fn a_store_that_cannot_be_opened_is_reported() {
    let mut ai = AiWorkspaceEntity::new(options());
    let mut clock = RevisionClock { last: 0 };
    ai.initialize_history();
    let generation = ai.history.generation;
    ai.apply_delivery(Delivery::Initialized { generation, store: Err(()) }, &mut clock, 0);
    assert_eq!(
        ai.chat_initialization_error.as_ref().unwrap().message_key,
        "ai.chat.load_failed_generic"
    );
    assert!(!ai.history_ready());
    let mut late = AiWorkspaceEntity::new(options());
    late.initialize_history();
    late.initialize_history();
    late.apply_delivery(Delivery::Initialized { generation: 1, store: Err(()) }, &mut clock, 0);
    assert!(late.chat_initialization_error.is_none());
}

#[test]
fn changes_are_written_and_acknowledged() {
    let (mut ai, mut clock) = opened(vec![]);
    let id = ai.create_conversation("new".to_string(), None, 5, None, &mut clock);
    assert_eq!(id, "new");
    ai.add_message("new", message("m1", "one"), 1, &mut clock);
    ai.add_message("new", message("m2", "two"), 2, &mut clock);
    assert!(ai.history_has_unsaved_messages("new"));
    assert!(ai.history_message_is_pending("new", "m1"));
    let batch = ai.history_operations();
    assert!(matches!(&batch.operations[0], HistoryMutation::Create { conversation, .. } if conversation.id == "new"));
    assert!(matches!(
        &batch.operations[0],
        HistoryMutation::Create { conversation, .. }
            if conversation.messages.is_empty() && !conversation.messages_loaded
    ));
    assert!(batch.streams.is_empty());
    let pending: Vec<&str> = batch.pending.iter().map(|p| p.message.id.as_str()).collect();
    assert_eq!(pending, vec!["m1", "m2"]);
    ai.start_history_write();
    assert!(ai.history.write_running);
    let revision = batch.revision;
    ai.apply_delivery(Delivery::Written { revision, streams: vec![] }, &mut clock, 0);
    assert!(!ai.history_has_unsaved_messages("new"));
    assert_eq!(ai.history.committed, revision);
}

#[test]
fn a_deleted_conversation_leaves_nothing_pending_but_its_deletion() {
    let (mut ai, mut clock) = opened(vec![]);
    ai.create_conversation("a".to_string(), None, 5, None, &mut clock);
    ai.add_message("a", message("m1", "one"), 1, &mut clock);
    ai.create_conversation("b".to_string(), None, 5, None, &mut clock);
    ai.add_message("b", message("m2", "two"), 1, &mut clock);
    ai.history_deleted("a", &mut clock);
    let batch = ai.history_operations();
    assert_eq!(batch.pending.len(), 1);
    assert_eq!(batch.pending[0].conversation, "b");
    assert!(matches!(
        batch.operations.last(),
        Some(HistoryMutation::DeleteConversation { conversation_id, .. }) if conversation_id == "a"
    ));
}

#[test]
fn events_keep_their_order() {
    let (mut ai, mut clock) = opened(vec![head("c")]);
    let event = |text: &str| HistoryEvent::Transcript(JsonTree::Text(text.to_string()));
    ai.queue_history_event("c", "family", "2", event("second"), &mut clock);
    ai.queue_history_event("c", "family", "1", event("first"), &mut clock);
    let batch = ai.history_operations();
    let ids: Vec<&str> = batch
        .operations
        .iter()
        .filter_map(|operation| match operation {
            HistoryMutation::PutEvent { id, .. } => Some(id.as_str()),
            _ => None,
        })
        .collect();
    assert_eq!(ids, vec!["2", "1"]);
}

#[test]
fn waiters_hear_when_everything_is_on_disk() {
    let (mut ai, mut clock) = opened(vec![]);
    ai.history_barrier(1);
    assert!(matches!(
        ai.history.effects.last(),
        Some(HistoryEffect::Answer { waiter: 1, committed: true })
    ));
    ai.create_conversation("a".to_string(), None, 5, None, &mut clock);
    ai.history_barrier(2);
    assert_eq!(ai.history.waiters.len(), 1);
    let revision = ai.history.changes.revision;
    let left = ai.drain_history(
        vec![Delivery::Written { revision, streams: vec![] }],
        &vec![],
        &mut clock,
        100,
    );
    assert!(left.is_empty());
    assert_eq!(clock.last, revision);
    assert!(ai.history.waiters.is_empty());
    assert!(ai
        .history
        .effects
        .iter()
        .any(|effect| matches!(effect, HistoryEffect::Answer { waiter: 2, committed: true })));
}

#[test]
fn pages_of_messages_are_shown_in_order() {
    let (mut ai, mut clock) = opened(vec![head("c")]);
    ai.conversation_state.active_conversation_id = Some("c".to_string());
    ai.request_history_conversation("c".to_string());
    let generation = ai.history.page_generation;
    let page = MessagePage {
        messages: vec![descriptor("m1", 1), descriptor("m2", 2)],
        before: None,
        after: None,
        revision: 1,
    };
    ai.apply_delivery(
        Delivery::Page(PageDelivery {
            generation,
            id: "c".to_string(),
            branch: "main".to_string(),
            direction: PageDirection::Initial,
            result: Ok(page),
        }),
        &mut clock,
        0,
    );
    let conversation = ai.active_conversation().unwrap();
    assert!(conversation.messages_loaded);
    let ids: Vec<&str> = conversation.messages.iter().map(|m| m.id.as_str()).collect();
    assert_eq!(ids, vec!["m1", "m2"]);
    assert_eq!(conversation.messages[0].content, "preview of m1");
    assert!(ai.history_ready());
}

#[test]
fn a_page_of_another_generation_is_ignored() {
    let (mut ai, mut clock) = opened(vec![head("c")]);
    ai.conversation_state.active_conversation_id = Some("c".to_string());
    ai.request_history_conversation("c".to_string());
    let generation = ai.history.page_generation;
    ai.apply_delivery(
        Delivery::Page(PageDelivery {
            generation: generation + 7,
            id: "c".to_string(),
            branch: "main".to_string(),
            direction: PageDirection::Initial,
            result: Err(()),
        }),
        &mut clock,
        0,
    );
    assert!(ai.chat_initialization_error.is_none());
    assert!(!ai.active_conversation().unwrap().messages_loaded);
}

#[test]
fn bodies_are_asked_for_and_taken_in() {
    let (mut ai, mut clock) = opened(vec![head("c")]);
    ai.conversation_state.active_conversation_id = Some("c".to_string());
    ai.request_history_conversation("c".to_string());
    let generation = ai.history.page_generation;
    ai.apply_delivery(
        Delivery::Page(PageDelivery {
            generation,
            id: "c".to_string(),
            branch: "main".to_string(),
            direction: PageDirection::Initial,
            result: Ok(MessagePage {
                messages: vec![descriptor("m1", 1)],
                before: None,
                after: None,
                revision: 1,
            }),
        }),
        &mut clock,
        0,
    );
    ai.history.effects.clear();
    ai.request_history_body("c".to_string(), "m1".to_string(), None, false, false);
    let delivery = match ai.history.effects.last() {
        Some(HistoryEffect::LoadBody { generation, storage_id, revision, token, .. }) => {
            assert_eq!(storage_id, "stored-m1");
            BodyDelivery {
                generation: *generation,
                owner: HistoryViewOwner::Main("c".to_string()),
                storage_id: storage_id.clone(),
                message: "m1".to_string(),
                revision: *revision,
                token: *token,
                result: Ok((77, message("m1", "the whole text"))),
            }
        }
        _ => panic!("the body is to be loaded"),
    };
    ai.apply_delivery(Delivery::Body(delivery), &mut clock, 0);
    let page = ai.history_view(&HistoryViewOwner::Main("c".to_string())).unwrap();
    assert_eq!(page.bodies.get(&"m1".to_string()), Some(&77));
}

#[test]
fn closed_archives_take_no_pages() {
    let (mut ai, mut clock) = opened(vec![head("c")]);
    let range = || HistoryRange { branch_id: "main".to_string(), first: 1, last: 4 };
    ai.toggle_history_archive("c".to_string(), "summary".to_string(), range(), 9);
    let key = ("c".to_string(), "summary".to_string());
    let (generation, revision) = match ai.history.effects.iter().find_map(|effect| match effect {
        HistoryEffect::LoadArchive { generation, revision, .. } => Some((*generation, *revision)),
        _ => None,
    }) {
        Some(found) => found,
        None => panic!("the archive is to be loaded"),
    };
    let delivery = || ArchiveDelivery {
        generation,
        revision,
        conversation: "c".to_string(),
        message: "summary".to_string(),
        range: range(),
        result: Ok(MessagePage {
            messages: vec![descriptor("m1", 1)],
            before: None,
            after: None,
            revision: 1,
        }),
    };
    ai.apply_delivery(Delivery::Archive(delivery()), &mut clock, 0);
    assert_eq!(ai.history.archives.get(&key).unwrap().messages.len(), 1);
    ai.toggle_history_archive("c".to_string(), "summary".to_string(), range(), 10);
    let closed = ai.history.archives.get(&key).unwrap();
    assert!(!closed.expanded);
    ai.apply_delivery(Delivery::Archive(delivery()), &mut clock, 0);
    assert!(!ai.history.archives.get(&key).unwrap().loading);
}

#[test]
fn conversations_are_listed_once() {
    let (mut ai, _) = opened(vec![head("c1"), head("c2")]);
    ai.apply_conversation_list(false, Ok(vec![head("c2"), head("c3")]));
    let ids: Vec<&str> =
        ai.conversation_state.conversations.iter().map(|c| c.id.as_str()).collect();
    assert_eq!(ids.iter().filter(|id| **id == "c2").count(), 1);
    assert!(ids.contains(&"c3"));
}

fn config() -> SummaryConfig {
    SummaryConfig {
        provider_type: "openai".to_string(),
        provider_id: Some("p1".to_string()),
        requires_key: true,
        context_window: 1000,
    }
}

fn request(summary: bool, silent: bool) -> CompactionRequest<&'static str> {
    CompactionRequest {
        conversation_id: "c".to_string(),
        summary,
        silent,
        force: false,
        resume_after: if summary { None } else { Some("send") },
    }
}

fn source(count: usize) -> Vec<AiChatMessage> {
    (0..count).map(|n| message(&format!("m{n}"), "text")).collect()
}

fn review(level: u8, planned: bool) -> CompactionReview {
    CompactionReview {
        scoped: source(4),
        level,
        plan: if planned { Some(CompactionPlan { compact_messages: source(2) }) } else { None },
        summary_messages: source(1),
    }
}

#[test]
fn a_compaction_goes_from_the_store_to_the_model() {
    let (mut ai, _) = opened(vec![head("c")]);
    ai.conversation_state.conversations[0].messages_loaded = true;
    let load = ai.load_ai_compaction_history(request(false, true), Ok(config()), 5).ok().unwrap();
    assert_eq!(load.budget, 2000);
    assert_eq!(load.branch, "main");
    assert!(ai.load_ai_compaction_history(request(false, true), Ok(config()), 6).is_err());
    let load = ai.on_compaction_barrier(load, true).unwrap();
    let job = match ai.on_compaction_source(load, Ok(source(4)), Ok(config()), review(2, true)) {
        CompactionStep::LookUpKey(job) => job,
        _ => panic!("the key is to be looked up"),
    };
    assert_eq!(job.base_ids, vec!["m0", "m1", "m2", "m3"]);
    assert!(job.shows_notice);
    assert_eq!(job.resume_after, Some("send"));
    assert!(ai.compaction_in_progress("c"));
    let mut stream = match ai.on_summary_key(job, SummaryKey::Found("key")) {
        SummaryStart::Stream { job, key } => {
            assert_eq!(key, Some("key"));
            SummaryStream::new(job)
        }
        _ => panic!("the summary is to be written"),
    };
    stream.on_event(SummaryEvent::Content("notes".to_string()));
    stream.on_event(SummaryEvent::Other);
    stream.on_event(SummaryEvent::Done);
    stream.on_event(SummaryEvent::Content(" more".to_string()));
    let delivery = stream.deliver();
    assert_eq!(delivery.summary, "notes");
    assert!(!delivery.failed);
    assert_eq!(delivery.resume_after, Some("send"));
}

#[test]
fn a_compaction_that_is_not_needed_hands_the_request_back() {
    let (mut ai, _) = opened(vec![head("c")]);
    for (count, level, planned) in [(3, 2, true), (4, 1, true), (4, 2, false)] {
        let load =
            ai.load_ai_compaction_history(request(false, true), Ok(config()), 5).ok().unwrap();
        match ai.on_compaction_source(load, Ok(source(count)), Ok(config()), review(level, planned))
        {
            CompactionStep::Skipped(refused) => {
                assert_eq!(refused.resume_after, Some("send"));
                assert_eq!(refused.error, None);
            }
            _ => panic!("there is nothing to compact"),
        }
        assert!(!ai.compaction_in_progress("c"));
        assert!(!ai.history.compaction_sources.contains(&"c".to_string()));
    }
}

#[test]
fn a_summary_without_a_key_is_given_up() {
    let (mut ai, _) = opened(vec![head("c")]);
    ai.conversation_state.conversations[0].messages_loaded = true;
    let load = ai.load_ai_compaction_history(request(true, false), Ok(config()), 5).ok().unwrap();
    let job = match ai.on_compaction_source(load, Ok(source(5)), Ok(config()), review(0, false)) {
        CompactionStep::LookUpKey(job) => job,
        _ => panic!("the key is to be looked up"),
    };
    assert_eq!(job.base_ids.len(), 5);
    assert!(!job.shows_notice);
    assert!(ai.loading_conversations.contains(&"c".to_string()));
    match ai.on_summary_key::<_, ()>(job, SummaryKey::Missing) {
        SummaryStart::GivenUp { error_key, clear_notice, .. } => {
            assert_eq!(error_key.as_deref(), Some("ai.model_selector.api_key_not_found"));
            assert!(!clear_notice);
        }
        _ => panic!("there is no key"),
    }
    assert!(!ai.compaction_in_progress("c"));
    assert!(!ai.loading_conversations.contains(&"c".to_string()));
}

#[test]
fn stale_compactions_change_nothing() {
    let (mut ai, _) = opened(vec![head("c")]);
    let load = ai.load_ai_compaction_history(request(false, true), Ok(config()), 5).ok().unwrap();
    let job = match ai.on_compaction_source(load, Ok(source(4)), Ok(config()), review(2, true)) {
        CompactionStep::LookUpKey(job) => job,
        _ => panic!("the key is to be looked up"),
    };
    ai.finish_compaction("c");
    assert!(ai.begin_compaction("c"));
    assert!(!ai.begin_compaction("c"));
    assert!(matches!(
        ai.on_summary_key::<_, ()>(job, SummaryKey::Refused),
        SummaryStart::Dropped
    ));
    assert!(ai.compaction_in_progress("c"));
}

#[test]
fn messages_from_a_branch_that_was_left_are_dropped() {
    let (mut ai, _) = opened(vec![head("c")]);
    let load = ai.load_ai_compaction_history(request(false, true), Ok(config()), 5).ok().unwrap();
    ai.history.branches.insert("c".to_string(), "other".to_string());
    assert!(matches!(
        ai.on_compaction_source(load, Ok(source(4)), Ok(config()), review(2, true)),
        CompactionStep::Dropped
    ));
    let load = ai.load_ai_compaction_history(request(false, true), Ok(config()), 5).ok().unwrap();
    assert!(matches!(
        ai.on_compaction_source(load, Err(()), Ok(config()), review(2, true)),
        CompactionStep::Failed
    ));
    assert!(ai.chat_initialization_error.is_some());
    let load = ai.load_ai_compaction_history(request(false, true), Ok(config()), 5).ok().unwrap();
    assert!(ai.on_compaction_barrier(load, false).is_none());
    assert!(!ai.history.compaction_loads.contains(&"c".to_string()));
}

#[test]
fn a_failed_summary_says_only_that_it_failed() {
    let (mut ai, _) = opened(vec![head("c")]);
    let load = ai.load_ai_compaction_history(request(false, true), Ok(config()), 5).ok().unwrap();
    let job = match ai.on_compaction_source(load, Ok(source(4)), Ok(config()), review(2, true)) {
        CompactionStep::LookUpKey(job) => job,
        _ => panic!("the key is to be looked up"),
    };
    let mut stream = SummaryStream::new(job);
    stream.on_event(SummaryEvent::Content("half".to_string()));
    stream.on_event(SummaryEvent::Error);
    let delivery = stream.deliver();
    assert!(delivery.failed);
    assert_eq!(delivery.summary, "half");
}

#[test]
fn without_a_model_only_a_user_hears_of_it() {
    let (mut ai, _) = opened(vec![head("c")]);
    let refused = ai
        .load_ai_compaction_history(request(false, false), Err("no model".to_string()), 5)
        .err()
        .unwrap();
    assert_eq!(refused.error.as_deref(), Some("no model"));
    assert_eq!(refused.resume_after, Some("send"));
    let refused = ai
        .load_ai_compaction_history(request(false, true), Err("no model".to_string()), 5)
        .err()
        .unwrap();
    assert_eq!(refused.error, None);
}

#[test]
fn cleared_lists_ask_for_nothing() {
    let (mut ai, mut clock) = opened(vec![head("c1")]);
    let generation = ai.history.generation;
    let epoch = ai.history.conversation_list_epoch;
    ai.reset_conversation_lists_after_clear();
    assert_eq!(ai.history.conversation_list_epoch, epoch + 1);
    ai.history.effects.clear();
    for archived in [true, false] {
        ai.request_conversation_list_page(archived);
        assert!(ai.history.effects.is_empty());
        assert!(!ai.conversation_list_page(archived).loading());
        ai.apply_delivery(
            Delivery::Conversations {
                generation,
                epoch,
                archived,
                heads: Ok(vec![head("late")]),
            },
            &mut clock,
            0,
        );
        let page = ai.conversation_list_page(archived);
        assert!(page.initialized && !page.has_more && !page.failed);
    }
    assert_eq!(ai.conversation_state.conversations.len(), 1);
}

#[test]
fn each_new_conversation_is_added_to_the_list() {
    let (mut ai, mut clock) = opened(vec![head("c1")]);
    ai.create_conversation("c2".to_string(), None, 5, None, &mut clock);
    assert_eq!(ai.conversation_state.conversations.len(), 2);
}

#[test]
fn the_store_is_asked_for_a_page_of_the_shown_branch() {
    let query = page_query(Some("main"), PageDirection::Initial, "old").unwrap();
    assert_eq!(query.branch, "main");
    assert_eq!(query.read, PageRead::Before);
    let query = page_query(Some("main"), PageDirection::Around(7), "old").unwrap();
    assert_eq!(query.read, PageRead::At(8));
    let query = page_query(Some("main"), PageDirection::Around(u64::MAX), "old").unwrap();
    assert_eq!(query.read, PageRead::At(u64::MAX));
    assert!(page_query(Some("main"), PageDirection::Older, "old").is_err());
    assert!(page_query(Some("main"), PageDirection::Newer, "old").is_err());
    assert!(page_query(None, PageDirection::Initial, "old").is_err());
    let query = page_query(Some("main"), PageDirection::Older, "main").unwrap();
    assert_eq!(query.read, PageRead::Before);
    let query = page_query(Some("main"), PageDirection::Newer, "main").unwrap();
    assert_eq!(query.read, PageRead::After);
    assert_eq!(run_page_read(None), PageRead::Before);
    assert_eq!(run_page_read(Some(true)), PageRead::Before);
    assert_eq!(run_page_read(Some(false)), PageRead::After);
    let failed = page_delivery(4, "c".to_string(), PageDirection::Newer, Err(()));
    assert_eq!(failed.generation, 4);
    assert!(failed.branch.is_empty());
    assert!(failed.result.is_err());
}

#[test]
fn an_event_that_cannot_be_written_down_stops_the_writing() {
    let (mut ai, mut clock) = opened(vec![]);
    ai.create_conversation("new".to_string(), None, 5, None, &mut clock);
    ai.add_message("new", message("m1", "one"), 1, &mut clock);
    ai.start_history_write();
    assert!(ai.history.write_running);
    ai.refuse_history_write();
    assert!(!ai.history.write_running);
    assert!(matches!(ai.history.status, HistoryStatus::Failed));
    assert!(ai.history_has_unsaved_messages("new"));
}
