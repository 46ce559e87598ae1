use oxideterm_workspace::ai::agent_run::{end_agent_run, stops_children};
use oxideterm_workspace::ai::delivery::AiStreamEvent;
use oxideterm_workspace::ai::messages::{AiChatMessage, AiChatRole};
use oxideterm_workspace::ai::models::AgentModel;
use oxideterm_workspace::ai::tool_loop::{AiAgentLoopOutcome, AiAgentLoopStatus};
use oxideterm_workspace::ai_state::agent_details::AgentPageDelivery;
use oxideterm_workspace::ai_state::agent_records::AgentUpdate;
use oxideterm_workspace::ai_state::agents::AgentError;
use oxideterm_workspace::ai_state::deliveries::{Delivery, OpenedStore};
use oxideterm_workspace::ai_state::entity::{
    AgentCommunicationPage, AiWorkspaceEntity, ChatStreamRun, HistoryEffect, HistoryRange,
    HistoryWriteState, PageDirection,
};
use oxideterm_workspace::ai_state::journal::{
    HistoryEvent, HistoryMutation, RevisionClock, StreamDelta,
};
use oxideterm_workspace::ai_state::model::{
    AgentConversationOptions, AgentMessage, AgentRecord, AgentRunRef, AgentSnapshot, AgentState,
    AgentUsage, HistoryCursor, HistoryViewOwner, MessageDescriptor, MessagePage,
};
use oxideterm_workspace::ai_state::pages::PageDelivery;
use oxideterm_workspace::json::JsonTree;

fn message(id: &str, content: &str) -> AiChatMessage {
    AiChatMessage::plain(id.to_string(), AiChatRole::User, content.to_string(), 1)
}

fn workspace() -> (AiWorkspaceEntity, RevisionClock) {
    let mut ai =
        AiWorkspaceEntity::new(AgentConversationOptions { enabled: true, default_model: None });
    let mut clock = RevisionClock { last: 0 };
    ai.initialize_history();
    let generation = ai.history.generation;
    let store =
        OpenedStore { heads: vec![], revision: 10, writer: Some(HistoryWriteState::Ready) };
    ai.apply_delivery(Delivery::Initialized { generation, store: Ok(store) }, &mut clock, 0);
    ai.create_conversation("c".to_string(), None, 5, None, &mut clock);
    for id in ["m1", "m2", "m3"] {
        ai.add_message("c", message(id, id), 1, &mut clock);
    }
    ai.history.effects.clear();
    (ai, clock)
}

fn descriptor(id: &str, sequence: u64) -> MessageDescriptor {
    MessageDescriptor {
        id: id.to_string(),
        storage_id: format!("stored-{id}"),
        revision: 1,
        sequence,
        role: AiChatRole::User,
        preview: id.to_string(),
        timestamp_ms: 1,
    }
}

fn page(ids: &[&str]) -> MessagePage {
    MessagePage {
        messages: ids.iter().enumerate().map(|(at, id)| descriptor(id, at as u64)).collect(),
        before: None,
        after: None,
        revision: 1,
    }
}

fn operations(ai: &AiWorkspaceEntity) -> Vec<HistoryMutation> {
    ai.history_operations().operations
}

#[test]
fn edits_go_on_in_a_branch_of_their_own() {
    let (mut ai, mut clock) = workspace();
    ai.capture_history_before_edit("c");
    let before = ai.history.branch("c");
    ai.replace_history_tail("c", 1, None, &mut clock);
    let branch = ai.history.branch("c");
    assert_ne!(before, branch);
    assert!(operations(&ai).iter().any(|operation| matches!(
        operation,
        HistoryMutation::ReplaceTail { source_branch, branch_id, after_message, messages, .. }
            if *source_branch == before
                && *branch_id == branch
                && after_message.as_deref() == Some("m1")
                && messages.len() == 2
    )));
    ai.compact_history("c", "m2".to_string(), &mut clock);
    assert_ne!(ai.history.branch("c"), branch);
    assert!(operations(&ai).iter().any(|operation| matches!(
        operation,
        HistoryMutation::Compact { through_message, anchor, .. }
            if through_message == "m2" && anchor.id == "m1"
    )));
    let known = ai.ensure_conversation("other".to_string(), None, 6, None, &mut clock);
    assert_eq!(known, "c");
}

#[test]
fn titles_events_and_streams_are_journaled() {
    let (mut ai, mut clock) = workspace();
    let revision = ai.history.changes.revision;
    ai.history_title_changed("c", &mut clock);
    ai.history_title_changed("unknown", &mut clock);
    assert_eq!(ai.history.changes.revision, revision + 1);
    ai.history_event(
        "c",
        "diagnostic",
        "d",
        HistoryEvent::Diagnostic(JsonTree::Bool(true)),
        &mut clock,
    );
    let listed = operations(&ai);
    assert!(listed.iter().any(|o| matches!(o, HistoryMutation::Rename { .. })));
    assert!(listed.iter().any(|o| matches!(
        o,
        HistoryMutation::PutEvent { family, id, .. } if family == "diagnostic" && id == "d"
    )));
    ai.history_stream_text_changed("c", "m3", &mut clock);
    ai.schedule_history_stream_save();
    ai.schedule_history_stream_save();
    assert_eq!(
        ai.history.effects.iter().filter(|e| matches!(e, HistoryEffect::StartStreamTimer)).count(),
        1
    );
    ai.history_message_deleted("c", "m2", &mut clock);
    assert!(operations(&ai).iter().any(|o| matches!(
        o,
        HistoryMutation::DeleteMessage { message_id, .. } if message_id == "m2"
    )));
    ai.history.writer = Some(HistoryWriteState::Failed);
    ai.retry_history_write();
    assert!(ai.history.retry_running);
}

#[test]
fn additions_to_a_stream_are_written_as_additions() {
    let (ai, _) = workspace();
    let batch = ai.history_operations();
    assert_eq!(batch.pending.len(), 3);
    let deltas = vec![None, None, Some(StreamDelta { delta: "more".to_string(), snapshot: 9 })];
    let written = batch.prepare(deltas, &vec![1, 2, 3]);
    assert!(written.pending.is_empty());
    let puts = written
        .operations
        .iter()
        .filter(|o| matches!(o, HistoryMutation::PutMessage { .. }))
        .count();
    let additions = written
        .operations
        .iter()
        .filter(|o| matches!(o, HistoryMutation::StreamText { .. }))
        .count();
    assert_eq!(puts + additions, 3);
    assert_eq!(written.streams.len(), 3);
}

#[test]
fn loads_that_were_called_off_are_not_shown() {
    let (mut ai, mut clock) = workspace();
    ai.conversation_state.active_conversation_id = Some("c".to_string());
    ai.request_history_conversation("c".to_string());
    let generation = ai.history.page_generation;
    let delivery = |generation| {
        Delivery::Page(PageDelivery {
            generation,
            id: "c".to_string(),
            branch: "main".to_string(),
            direction: PageDirection::Initial,
            result: Ok(page(&["s1"])),
        })
    };
    ai.cancel_history_page_loads();
    let shown = ai.active_conversation().unwrap().messages.len();
    ai.apply_delivery(delivery(generation), &mut clock, 0);
    assert_eq!(ai.active_conversation().unwrap().messages.len(), shown);
}

#[test]
fn bodies_are_kept_while_they_are_visible() {
    let (mut ai, mut clock) = workspace();
    ai.conversation_state.active_conversation_id = Some("c".to_string());
    ai.request_history_conversation("c".to_string());
    let generation = ai.history.page_generation;
    ai.apply_delivery(
        Delivery::Page(PageDelivery {
            generation,
            id: "c".to_string(),
            branch: "main".to_string(),
            direction: PageDirection::Initial,
            result: Ok(page(&["s1"])),
        }),
        &mut clock,
        0,
    );
    let owner = || HistoryViewOwner::Main("c".to_string());
    ai.history.effects.clear();
    ai.retain_visible_history_body(owner(), "s1".to_string(), true);
    assert!(matches!(ai.history.effects.last(), Some(HistoryEffect::ReleaseBodies(_))));
    ai.release_hidden_history_bodies(owner());
    assert!(!ai.history_view(&owner()).unwrap().body_cleanup_scheduled);
    ai.restore_history_scroll_anchor("c");
    ai.request_visible_history_page("c".to_string(), true);
    assert!(ai.history_view(&owner()).is_some());
}

#[test]
fn archives_are_paged() {
    let (mut ai, mut clock) = workspace();
    let range = HistoryRange { branch_id: "main".to_string(), first: 1, last: 4 };
    ai.toggle_history_archive("c".to_string(), "summary".to_string(), range, 9);
    let (generation, revision) = ai
        .history
        .effects
        .iter()
        .find_map(|effect| match effect {
            HistoryEffect::LoadArchive { generation, revision, .. } => {
                Some((*generation, *revision))
            }
            _ => None,
        })
        .unwrap();
    let mut older = page(&["a1"]);
    older.before = Some(HistoryCursor {
        conversation_id: "c".to_string(),
        branch_id: "main".to_string(),
        revision: 1,
        before_sequence: 1,
    });
    ai.apply_delivery(
        Delivery::Archive(oxideterm_workspace::ai_state::archives::ArchiveDelivery {
            generation,
            revision,
            conversation: "c".to_string(),
            message: "summary".to_string(),
            range: HistoryRange { branch_id: "main".to_string(), first: 1, last: 4 },
            result: Ok(older),
        }),
        &mut clock,
        0,
    );
    ai.history.effects.clear();
    let key = ("c".to_string(), "summary".to_string());
    let turn = |ai: &mut AiWorkspaceEntity, older: bool| {
        ai.page_history_archive("c".to_string(), "summary".to_string(), older, 10);
    };
    turn(&mut ai, false);
    assert!(ai.history.effects.is_empty());
    turn(&mut ai, true);
    assert!(matches!(
        ai.history.effects.last(),
        Some(HistoryEffect::LoadArchive { before: Some(_), .. })
    ));
    let view = ai.history.archives.get(&key).unwrap();
    assert_eq!(view.cursors.len(), 2);
    assert_eq!(view.cursors[1].as_ref().unwrap().before_sequence, 1);
    let revision = view.revision;
    let asked = ai.history.effects.len();
    turn(&mut ai, true);
    turn(&mut ai, false);
    assert_eq!(ai.history.effects.len(), asked);
    ai.apply_delivery(
        Delivery::Archive(oxideterm_workspace::ai_state::archives::ArchiveDelivery {
            generation,
            revision,
            conversation: "c".to_string(),
            message: "summary".to_string(),
            range: HistoryRange { branch_id: "main".to_string(), first: 1, last: 4 },
            result: Ok(page(&["a0"])),
        }),
        &mut clock,
        0,
    );
    turn(&mut ai, true);
    assert_eq!(ai.history.archives.get(&key).unwrap().cursors.len(), 2);
    turn(&mut ai, false);
    let back = ai.history.archives.get(&key).unwrap();
    assert_eq!(back.cursors.len(), 1);
    assert!(back.cursors[0].is_none());
    assert!(matches!(
        ai.history.effects.last(),
        Some(HistoryEffect::LoadArchive { before: None, .. })
    ));
}

fn run() -> AgentRunRef {
    AgentRunRef {
        group_id: "g".to_string(),
        agent_id: "a".to_string(),
        run_id: "r".to_string(),
    }
}

fn snapshot(state: AgentState) -> AgentSnapshot {
    AgentSnapshot {
        run: run(),
        parent_id: None,
        conversation_id: "c".to_string(),
        state,
        usage: AgentUsage { input_tokens: None, output_tokens: None },
        progress: String::new(),
        model: AgentModel { provider_id: "p".to_string(), model: "m".to_string() },
        title: "Look".to_string(),
        task: "look".to_string(),
        result_summary: None,
        resources: Vec::new(),
    }
}

fn with_run() -> (AiWorkspaceEntity, RevisionClock) {
    let (mut ai, mut clock) = workspace();
    ai.add_agent_record(
        AgentRecord {
            snapshot: snapshot(AgentState::Running),
            parent_usage: AgentUsage { input_tokens: None, output_tokens: None },
            created_at_ms: 4,
            parent_message_id: "m3".to_string(),
            target_labels: vec![],
            messages: vec![message("agent-message", "hello")],
            communication: vec![],
            revision: 1,
            message_branch: "main".to_string(),
        },
        &mut clock,
    );
    ai.history.effects.clear();
    (ai, clock)
}

#[test]
fn what_agents_say_is_journaled_once() {
    let (mut ai, mut clock) = with_run();
    ai.refresh_agent_records(
        vec![AgentUpdate {
            snapshot: snapshot(AgentState::Completed),
            communication: vec![AgentMessage {
                sequence: 1,
                consumed: false,
                from_agent: "a".to_string(),
                to_agent: "parent".to_string(),
                text: "done".to_string(),
            }],
            stamp: 2,
        }],
        &mut clock,
    );
    let record = ai.agents.records.get(&"r".to_string()).unwrap();
    assert_eq!(record.snapshot.state, AgentState::Completed);
    assert_eq!(record.communication.len(), 1);
    assert!(ai.agents.dirty.contains(&"r".to_string()));
    ai.persist_agent_records(&mut clock);
    assert!(!ai.agents.dirty.contains(&"r".to_string()));
    let talk = |ai: &AiWorkspaceEntity| {
        operations(ai)
            .iter()
            .filter(|o| {
                matches!(
                    o,
                    HistoryMutation::PutEvent { event: HistoryEvent::AgentCommunication(_), .. }
                )
            })
            .count()
    };
    assert_eq!(talk(&ai), 1);
    ai.persist_agent_records(&mut clock);
    assert_eq!(talk(&ai), 1);
}

#[test]
fn the_detail_of_a_run_is_paged() {
    let (mut ai, _) = with_run();
    ai.open_agent_detail("r".to_string(), 1, 2);
    assert!(ai
        .history
        .effects
        .iter()
        .any(|effect| matches!(effect, HistoryEffect::LoadAgentPage { run, .. } if run == "r")));
    let talk = AgentCommunicationPage {
        sequence: 1,
        before: None,
        more: None,
        message: AgentMessage {
            sequence: 1,
            consumed: true,
            from_agent: "a".to_string(),
            to_agent: "parent".to_string(),
            text: "done".to_string(),
        },
    };
    assert!(ai.apply_agent_communication(&"r".to_string(), Ok(Some(talk))));
    assert!(!ai.apply_agent_communication(&"other".to_string(), Err(())));
    let revision = ai.agents.records.get(&"r".to_string()).unwrap().revision;
    let delivery = |record_revision, result| AgentPageDelivery {
        conversation: "c".to_string(),
        run: "r".to_string(),
        record_revision,
        result,
    };
    assert!(!ai.apply_agent_message_page(delivery(revision + 1, Ok(page(&["x"]))), 3));
    assert!(ai.apply_agent_message_page(delivery(revision, Ok(page(&["x"]))), 3));
    let owner = HistoryViewOwner::Agent("c".to_string(), "r".to_string());
    assert!(ai.history_view(&owner).is_some());
    ai.load_agent_message_page(&"r".to_string(), None, 4);
    assert!(ai.apply_agent_message_page(delivery(revision, Err(())), 3));
    assert!(ai.agents.detail_errors.contains(&"r".to_string()));
    ai.remove_agent_history_views(&vec!["r".to_string()]);
    assert!(ai.history_view(&owner).is_none());
    ai.close_agent_detail();
    assert!(ai.agents.detail.is_none());
}

#[test]
fn only_a_run_at_work_takes_more() {
    let (mut ai, _) = with_run();
    assert_eq!(ai.supplement_agent().err(), Some(AgentError::StaleRun));
    assert!(!ai.run_accepts_tools(7));
    ai.chat_stream_runs.insert(
        7,
        ChatStreamRun {
            conversation_id: "c".to_string(),
            assistant_id: "m3".to_string(),
            agent: None,
            child: false,
            accepts_messages: false,
        },
    );
    assert!(ai.run_accepts_tools(7));
    assert!(ai.takes_agent_command(7, true));
    assert!(!ai.takes_agent_command(7, false));
    ai.bind_agent_run(7, run(), false);
    assert!(!ai.run_accepts_tools(7));
    assert!(!ai.takes_agent_command(7, true));
    assert_eq!(ai.chat_stream_runs_for_agent(&run()), vec![7]);
}

#[test]
fn the_end_of_a_run_says_what_was_left() {
    let outcome = |status| AiAgentLoopOutcome { content: "the end".to_string(), status };
    let history = vec![message("m", "hello")];
    let done = end_agent_run(outcome(AiAgentLoopStatus::Completed), &history, "a", "r", false, false);
    assert_eq!(done.result.error_code, None);
    assert!(done.finish_group);
    assert!(matches!(done.event, AiStreamEvent::Done));
    let failed = end_agent_run(outcome(AiAgentLoopStatus::Failed), &history, "a", "r", true, false);
    assert_eq!(failed.result.error_code.as_deref(), Some("agent_execution_failed"));
    assert!(matches!(failed.event, AiStreamEvent::Error(words) if words == "the end"));
    let stalled =
        end_agent_run(outcome(AiAgentLoopStatus::Stalled), &history, "a", "r", true, false);
    assert_eq!(stalled.result.error_code.as_deref(), Some("agent_no_progress"));
    let cancelled =
        end_agent_run(outcome(AiAgentLoopStatus::Failed), &history, "a", "r", true, true);
    assert_eq!(cancelled.result.error_code.as_deref(), Some("agent_cancelled"));
    assert!(stops_children(&outcome(AiAgentLoopStatus::Failed), false));
    assert!(!stops_children(&outcome(AiAgentLoopStatus::Completed), false));
    assert!(!stops_children(&outcome(AiAgentLoopStatus::Failed), true));
}

fn open_page(ai: &mut AiWorkspaceEntity, clock: &mut RevisionClock, page: MessagePage) {
    ai.conversation_state.active_conversation_id = Some("c".to_string());
    ai.request_history_conversation("c".to_string());
    let generation = ai.history.page_generation;
    ai.apply_delivery(
        Delivery::Page(PageDelivery {
            generation,
            id: "c".to_string(),
            branch: "main".to_string(),
            direction: PageDirection::Initial,
            result: Ok(page),
        }),
        clock,
        0,
    );
}

#[test]
fn messages_that_wait_survive_a_page() {
    let (mut ai, mut clock) = workspace();
    open_page(&mut ai, &mut clock, page(&["s1", "s2"]));
    let ids: Vec<&str> =
        ai.active_conversation().unwrap().messages.iter().map(|m| m.id.as_str()).collect();
    for id in ["s1", "s2", "m1", "m2", "m3"] {
        assert!(ids.contains(&id), "{id}");
    }
}

#[test]
fn a_window_holds_so_many_messages_and_no_more() {
    let (mut ai, mut clock) = workspace();
    let ids: Vec<String> = (0..150).map(|n| format!("s{n}")).collect();
    let names: Vec<&str> = ids.iter().map(|id| id.as_str()).collect();
    open_page(&mut ai, &mut clock, page(&names));
    let owner = HistoryViewOwner::Main("c".to_string());
    assert_eq!(ai.history_view(&owner).unwrap().descriptions.keys().len(), 100);
}

#[test]
fn changes_since_a_batch_stay() {
    let (mut ai, mut clock) = workspace();
    let revision = ai.history_operations().revision;
    ai.add_message("c", message("m4", "four"), 1, &mut clock);
    ai.apply_delivery(Delivery::Written { revision, streams: vec![] }, &mut clock, 0);
    assert!(!ai.history_message_is_pending("c", "m1"));
    assert!(ai.history_message_is_pending("c", "m4"));
    assert_eq!(ai.history.committed, revision);
}

#[test]
fn runs_in_memory_stay_as_they_are() {
    let (mut ai, mut clock) = with_run();
    let stored = AgentRecord {
        snapshot: snapshot(AgentState::Failed),
        parent_usage: AgentUsage { input_tokens: None, output_tokens: None },
        created_at_ms: 4,
        parent_message_id: "m3".to_string(),
        target_labels: vec![],
        messages: vec![],
        communication: vec![],
        revision: 0,
        message_branch: "main".to_string(),
    };
    let generation = ai.history.generation;
    ai.apply_delivery(
        Delivery::Agents { generation, conversation: "c".to_string(), records: Ok(vec![stored]) },
        &mut clock,
        0,
    );
    let record = ai.agents.records.get(&"r".to_string()).unwrap();
    assert_eq!(record.snapshot.state, AgentState::Running);
}

#[test]
fn a_deleted_message_waits_no_more() {
    let (mut ai, mut clock) = workspace();
    assert!(ai.history_message_is_pending("c", "m1"));
    ai.history_message_deleted("c", "m1", &mut clock);
    ai.history_message_deleted("c", "m2", &mut clock);
    assert!(!ai.history_message_is_pending("c", "m1"));
    assert!(!ai.history_message_is_pending("c", "m2"));
    assert!(ai.history_message_is_pending("c", "m3"));
    ai.history_message_changed("c", "m2", &mut clock);
    ai.history_message_changed("c", "unknown", &mut clock);
    assert!(ai.history_message_is_pending("c", "m2"));
    assert!(!ai.history_message_is_pending("c", "m1"));
    assert!(!ai.history_message_is_pending("c", "unknown"));
}
