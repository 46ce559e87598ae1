use oxideterm_workspace::ai::delivery::{
    send_ai_loop_delivery, AiStreamDeliveryEvent, AiStreamDeliverySender, AiStreamEvent, ToolStatus,
};
use oxideterm_workspace::ai::agent_run::{AgentUpdate, MailboxMessage};
use oxideterm_workspace::ai::loop_batches::SummaryDraft;
use oxideterm_workspace::ai::loop_stream::RoundTurn;
use oxideterm_workspace::ai::messages::{
    agent_chat_message, last_user_message, replace_ai_runtime_context_message, AiChatMessage,
    AiChatRole, AiToolCall,
};
use oxideterm_workspace::ai::notes::{NoteStep, TaskNotes};
use oxideterm_workspace::ai::results::{
    agent_tool_result, ai_direction_changed_result, rejected_ai_tool_result,
    resolve_ai_candidate_selection_if_needed, selection_candidates, AiExecutedToolResult, AiTarget,
    SelectionReply,
};
use oxideterm_workspace::ai::round_call::{
    AiPolicyDecision, ApprovalReply, CallPhase, RoundCall,
};
use oxideterm_workspace::json::{parse, JsonTree};
use oxideterm_workspace::ai::tool_loop::{
    allowed_rounds, call_may_run_in_parallel, response_reserve, AiActionRisk, AiAgentLoopOutcome,
    AiAgentLoopStatus, AiPolicyDecisionKind, BatchPlan, CompactedTask, CompletionReply,
    DispatchReply,
    LoopPhase, LoopSettings, RoundGrant, ToolLoop,
};

fn settings(has_agent: bool, is_child: bool) -> LoopSettings {
    LoopSettings {
        has_agent,
        is_child,
        max_rounds: 3,
        policy_enabled: true,
        max_hard_deny_retries: 1,
        provider_id: Some("provider".to_string()),
        provider_type: "openai".to_string(),
        uses_responses: false,
        response_state_key: "openai-responses".to_string(),
        model: "model".to_string(),
        context_window: 1000,
        max_parallel_reads: 2,
        generation: 1,
        conversation_id: "conversation".to_string(),
        assistant_id: "assistant".to_string(),
        retry_tool_name: "retry".to_string(),
        read_risk_label: "read".to_string(),
        lookup_prompt: None,
        budget_level: 2,
        tool_count: 9,
        tool_choice: "auto".to_string(),
        free_tool_choice: "none".to_string(),
    }
}

fn sender() -> AiStreamDeliverySender {
    AiStreamDeliverySender { open: true, sent: Vec::new() }
}

fn user(text: &str) -> AiChatMessage {
    AiChatMessage::plain("u1".to_string(), AiChatRole::User, text.to_string(), 1)
}

fn run_to_stream(has_agent: bool, is_child: bool) -> ToolLoop {
    let mut run = ToolLoop::new(settings(has_agent, is_child), vec![user("hello")], &vec![false], sender());
    run.start_round();
    if has_agent {
        run.on_ready(true);
        run.on_grant(RoundGrant::Granted);
    }
    run.on_progress(false, 2);
    assert_eq!(run.phase, LoopPhase::AwaitCommit);
    run.on_commit(true);
    run.on_runtime_context(Some("context".to_string()), 3);
    run.on_prompt_size(750);
    assert_eq!(run.phase, LoopPhase::AwaitDispatch);
    run.on_dispatch(DispatchReply::Granted, &vec![user("hello")], 42);
    assert_eq!(run.phase, LoopPhase::Streaming);
    run
}

fn call_events(id: &str, name: &str) -> [AiStreamEvent; 2] {
    [
        AiStreamEvent::ToolCall {
            id: id.to_string(),
            name: name.to_string(),
            arguments: "{}".to_string(),
        },
        AiStreamEvent::ToolCallComplete {
            id: id.to_string(),
            name: name.to_string(),
            arguments: "{}".to_string(),
        },
    ]
}

#[test]
fn an_answer_without_calls_ends_the_loop() {
    let mut run = run_to_stream(false, false);
    assert_eq!(run.history[0].id, "runtime-context-v2");
    run.on_stream_event(AiStreamEvent::Content("Hi".to_string()));
    run.on_stream_event(AiStreamEvent::Content(" there".to_string()));
    run.on_stream_event(AiStreamEvent::Done);
    assert_eq!(run.phase, LoopPhase::StreamEnded);
    assert_eq!(run.conclude_stream(false, None, 4), RoundTurn::Answered { refund: false });
    assert_eq!(run.history.last().unwrap().content, "Hi there");
    assert_eq!(run.phase, LoopPhase::AwaitFinish);
    run.finish(false);
    let outcome = run.outcome.unwrap();
    assert_eq!(outcome.status, AiAgentLoopStatus::Completed);
    assert!(!outcome.failed());
}

#[test]
fn a_child_announces_its_end_and_reads_messages_first() {
    let mut run = run_to_stream(true, true);
    run.on_stream_event(AiStreamEvent::Content("done".to_string()));
    run.on_stream_event(AiStreamEvent::Done);
    assert_eq!(run.conclude_stream(false, None, 4), RoundTurn::Answered { refund: true });
    assert_eq!(run.phase, LoopPhase::AwaitCompletion);
    run.on_completion(CompletionReply::PendingMessages);
    assert_eq!(run.phase, LoopPhase::RoundStart);
    assert_eq!(run.round_index, 1);
}

#[test]
fn an_answer_that_imitates_tools_is_turned_down() {
    let mut run = run_to_stream(false, false);
    run.settings.policy_enabled = false;
    run.on_stream_event(AiStreamEvent::Content("{\"tool\":1}".to_string()));
    run.on_stream_event(AiStreamEvent::Done);
    assert_eq!(run.conclude_stream(true, None, 4), RoundTurn::Retry);
    assert_eq!(run.hard_deny_retries, 1);
    let denial = run.history.last().unwrap();
    assert_eq!(denial.role, AiChatRole::Tool);
    let said = parse(&denial.content).unwrap();
    assert_eq!(said.member_text("kind"), Some("tool_denied"));
    assert_eq!(said.member_text("reason"), Some("Tool use is disabled."));
    let stand_in = &run.history[run.history.len() - 2];
    let arguments = stand_in.tool_calls[0].member_text("arguments").unwrap();
    assert_eq!(arguments, "{\"reason\":\"tool_use_disabled\",\"retryAttempt\":1}");
}

#[test]
fn nothing_is_asked_of_the_model_before_the_history_is_kept() {
    let mut run = ToolLoop::new(settings(false, false), vec![user("hello")], &vec![false], sender());
    run.start_round();
    run.on_progress(false, 2);
    run.on_commit(false);
    assert_eq!(run.phase, LoopPhase::Finished);
    assert_eq!(run.outcome.unwrap().status, AiAgentLoopStatus::Failed);
}

#[test]
fn a_spent_budget_leaves_a_parent_its_summary() {
    let mut run = ToolLoop::new(settings(true, false), vec![user("hello")], &vec![false], sender());
    run.start_round();
    run.on_ready(true);
    run.on_grant(RoundGrant::BudgetExhausted);
    assert_eq!(run.phase, LoopPhase::AwaitFinalSummary);
    run.on_final_summary(true);
    run.on_summary_completion(CompletionReply::Ready, 5);
    assert!(run.summary_only);
    assert_eq!(run.history.len(), 2);
    let mut child = ToolLoop::new(settings(true, true), vec![user("hello")], &vec![false], sender());
    child.start_round();
    child.on_ready(true);
    child.on_grant(RoundGrant::BudgetExhausted);
    assert_eq!(
        child.outcome.unwrap().content,
        "The shared task budget is exhausted or this run was stopped."
    );
}

#[test]
fn a_crowded_window_is_compacted_first() {
    let mut run = ToolLoop::new(settings(false, false), vec![user("hello")], &vec![false], sender());
    run.start_round();
    run.on_progress(true, 2);
    assert_eq!(run.history.last().unwrap().id, "agent-no-progress");
    run.on_commit(true);
    run.on_runtime_context(Some("context".to_string()), 3);
    run.on_prompt_size(751);
    assert_eq!(run.phase, LoopPhase::AwaitCompaction);
    run.on_compaction(Err("agent_context_full".to_string()));
    assert_eq!(run.outcome.unwrap().content, "agent_context_full");
}

#[test]
fn calls_run_in_batches_after_they_are_kept() {
    let mut run = run_to_stream(false, false);
    for id in ["c1", "c2", "c3"] {
        for event in call_events(id, "read_resource") {
            run.on_stream_event(event);
        }
    }
    run.on_stream_event(AiStreamEvent::Done);
    assert_eq!(run.conclude_stream(false, None, 4), RoundTurn::Execute);
    assert_eq!(run.phase, LoopPhase::Batching);
    assert!(run.next_batch(&vec![true, true, true]));
    assert_eq!(run.batch.len(), 2);
    assert_eq!(run.phase, LoopPhase::AwaitBatchCommit);
    run.on_batch_commit(true);
    assert_eq!(run.plan_batch(false), BatchPlan::Parallel);
    let calls: Vec<AiToolCall> = run.batch.iter().map(|call| call.duplicate()).collect();
    for (at, call) in calls.iter().enumerate() {
        let started = run.start_call(at);
        assert_eq!(started.call.id, call.id);
        assert!(!started.allow_selection);
        let result = agent_tool_result(call, JsonTree::Object(vec![]));
        run.record_result(&result, result.duplicate(), false, "content".to_string(), 6);
        assert_eq!(run.recorded, at + 1);
    }
    assert_eq!(run.round_results.len(), 2);
    assert_eq!(run.round_results[1].tool_name, "read_resource");
    assert!(run.round_results[1].success);
    run.batch_done();
    assert_eq!(run.phase, LoopPhase::Batching);
    assert!(run.next_batch(&vec![false]));
    assert_eq!(run.batch.len(), 1);
    run.on_batch_commit(false);
    assert_eq!(run.phase, LoopPhase::Finished);
}

#[test]
fn too_many_calls_are_turned_away() {
    let mut run = run_to_stream(false, false);
    for n in 0..17 {
        for event in call_events(&format!("c{n}"), "read_resource") {
            run.on_stream_event(event);
        }
    }
    run.on_stream_event(AiStreamEvent::Done);
    assert_eq!(run.conclude_stream(false, None, 4), RoundTurn::Rejected);
    assert_eq!(run.phase, LoopPhase::Finished);
    let rejected = run
        .sender
        .sent
        .iter()
        .filter(|delivery| {
            matches!(
                delivery.event,
                AiStreamDeliveryEvent::ToolStatus { status: ToolStatus::Rejected, .. }
            )
        })
        .count();
    assert_eq!(rejected, 17);
}

#[test]
fn limits_hold() {
    assert_eq!(allowed_rounds(None, 10, 1, 50), 10);
    assert_eq!(allowed_rounds(Some(0), 10, 1, 50), 1);
    assert_eq!(allowed_rounds(Some(99), 10, 1, 50), 50);
    assert_eq!(response_reserve(Some(64), 128), 64);
    assert_eq!(response_reserve(Some(-1), 128), 128);
    assert_eq!(response_reserve(None, 128), 128);
    let read = Some((AiPolicyDecisionKind::Allow, AiActionRisk::Read));
    assert!(call_may_run_in_parallel(true, read, None));
    assert!(!call_may_run_in_parallel(true, read, Some(false)));
    assert!(!call_may_run_in_parallel(false, read, None));
    assert!(!call_may_run_in_parallel(
        true,
        Some((AiPolicyDecisionKind::Allow, AiActionRisk::Write)),
        None
    ));
    let outcome =
        AiAgentLoopOutcome { content: String::new(), status: AiAgentLoopStatus::Stalled };
    assert!(outcome.failed());
}

#[test]
fn an_agents_loop_leaves_the_end_of_the_stream_to_its_owner() {
    let mut sender = sender();
    let done = || AiStreamDeliveryEvent::Stream(AiStreamEvent::Done);
    assert!(send_ai_loop_delivery(true, &mut sender, 1, "c", "a", done()).is_ok());
    assert!(sender.sent.is_empty());
    assert!(send_ai_loop_delivery(false, &mut sender, 1, "c", "a", done()).is_ok());
    assert_eq!(sender.sent.len(), 1);
    sender.open = false;
    assert!(send_ai_loop_delivery(false, &mut sender, 1, "c", "a", done()).is_err());
}

#[test]
fn the_runtime_context_is_there_once() {
    let mut history = vec![user("hello")];
    replace_ai_runtime_context_message(&mut history, "one".to_string(), 1);
    replace_ai_runtime_context_message(&mut history, "two".to_string(), 2);
    assert_eq!(history.len(), 2);
    assert_eq!(history[0].content, "two");
    assert_eq!(last_user_message(&history), Some(1));
    let first = agent_chat_message(AiChatRole::User, "a".to_string(), 1);
    let second = agent_chat_message(AiChatRole::User, "a".to_string(), 1);
    assert_eq!(first.id.len(), 36);
    assert_ne!(first.id, second.id);
}

fn tool_call() -> AiToolCall {
    AiToolCall {
        id: "call-1".to_string(),
        name: "run_command".to_string(),
        arguments: "{}".to_string(),
    }
}

fn round_call() -> RoundCall {
    RoundCall {
        call: tool_call(),
        phase: CallPhase::New,
        has_agent: false,
        is_child: false,
        allow_selection: true,
        generation: 1,
        conversation_id: "c".to_string(),
        assistant_id: "a".to_string(),
        policy: None,
        order: None,
        result: None,
        sender: sender(),
    }
}

fn policy(decision: AiPolicyDecisionKind) -> AiPolicyDecision {
    AiPolicyDecision {
        decision,
        risk: AiActionRisk::Execute,
        risk_label: "execute".to_string(),
        reason_code: "needs_approval".to_string(),
    }
}

#[test]
fn a_call_runs_only_past_policy_and_approval() {
    let mut call = round_call();
    call.begin(true, None, false);
    call.on_arguments(true);
    call.on_preflight(Ok(None));
    assert_eq!(call.phase, CallPhase::AwaitPolicy);
    assert!(call.on_policy(
        policy(AiPolicyDecisionKind::RequireApproval),
        "{}".to_string(),
        "because".to_string(),
    ));
    assert_eq!(call.phase, CallPhase::AwaitApproval);
    call.on_approval(ApprovalReply::Rejected);
    assert!(call.order.is_none());
    assert!(!call.result.unwrap().success);

    let mut denied = round_call();
    denied.begin(true, None, false);
    denied.on_arguments(true);
    denied.on_preflight(Ok(None));
    denied.on_policy(
        policy(AiPolicyDecisionKind::Deny),
        "{}".to_string(),
        "because".to_string(),
    );
    assert_eq!(denied.result.unwrap().envelope.error.unwrap().code, "needs_approval");
    assert!(denied.order.is_none());

    let mut allowed = round_call();
    allowed.begin(true, None, false);
    allowed.on_arguments(true);
    allowed.on_preflight(Ok(None));
    allowed.on_policy(
        policy(AiPolicyDecisionKind::Allow),
        "{}".to_string(),
        "because".to_string(),
    );
    assert_eq!(allowed.phase, CallPhase::AwaitExecution);
    assert!(allowed.order.is_some());
}

#[test]
fn an_overtaken_call_is_not_dispatched() {
    let mut call = round_call();
    call.begin(false, None, false);
    assert_eq!(call.phase, CallPhase::Done);
    let result = call.result.unwrap();
    assert!(!result.dispatched);
    let expected = ai_direction_changed_result(&tool_call());
    assert_eq!(result.envelope.summary, expected.envelope.summary);
    assert_eq!(expected.envelope.error.unwrap().code, "agent_direction_changed");
}

fn ambiguous() -> AiExecutedToolResult {
    let mut result = rejected_ai_tool_result(
        "call-1".to_string(),
        "select_target".to_string(),
        "target_disambiguation_required",
        "several targets",
    );
    result.envelope.targets = vec![
        AiTarget {
            label: Some("First".to_string()),
            clean_label: Some("First".to_string()),
            kind: Some("terminal".to_string()),
            handle: "h1".to_string(),
        },
        AiTarget { label: None, clean_label: None, kind: None, handle: "h2".to_string() },
    ];
    result
}

#[test]
fn the_user_chooses_among_several_targets() {
    let result = ambiguous();
    assert!(result.reports("target_disambiguation_required"));
    assert_eq!(selection_candidates(&result).unwrap().len(), 2);
    let chosen = resolve_ai_candidate_selection_if_needed(
        &tool_call(),
        ambiguous(),
        SelectionReply::Chosen(1),
    );
    assert!(chosen.success);
    assert_eq!(chosen.envelope.selected_target.unwrap().handle, "h2");
    let cancelled = resolve_ai_candidate_selection_if_needed(
        &tool_call(),
        ambiguous(),
        SelectionReply::Cancelled,
    );
    assert!(!cancelled.success);
    let done = agent_tool_result(
        &tool_call(),
        JsonTree::Object(vec![
            ("b".to_string(), JsonTree::Text("x\"y".to_string())),
            ("a".to_string(), JsonTree::Number("1".to_string())),
        ]),
    );
    assert!(selection_candidates(&done).is_none());
    assert_eq!(done.output, "{\"a\":1,\"b\":\"x\\\"y\"}");
    assert!(matches!(done.envelope.data, Some(JsonTree::Object(_))));
    let meta = done.envelope.meta.unwrap();
    assert_eq!(meta.tool_name, "run_command");
    assert!(!meta.verified && !meta.truncated);
    assert_eq!(meta.duration_ms, 0);
}

fn target(label: &str, handle: &str) -> AiTarget {
    AiTarget {
        label: Some(label.to_string()),
        clean_label: Some(label.to_string()),
        kind: Some("terminal".to_string()),
        handle: handle.to_string(),
    }
}

fn ambiguous_resource() -> AiExecutedToolResult {
    let mut result = rejected_ai_tool_result(
        "call-1".to_string(),
        "read_resource".to_string(),
        "resource_ambiguous",
        "several resources",
    );
    result.envelope.targets = vec![target("A", "ha"), target("B", "hb")];
    result.envelope.next_actions = vec!["select_target".to_string()];
    result.envelope.data = Some(JsonTree::Bool(true));
    result
}

#[test]
fn a_chosen_target_replaces_the_question() {
    let chosen = resolve_ai_candidate_selection_if_needed(
        &tool_call(),
        ambiguous_resource(),
        SelectionReply::Chosen(1),
    );
    assert!(chosen.success && chosen.envelope.ok);
    assert_eq!(chosen.output, "Selected B.");
    assert_eq!(chosen.envelope.summary, "Selected B.");
    assert_eq!(chosen.envelope.output, "Selected B.");
    assert!(chosen.error.is_none() && chosen.envelope.error.is_none());
    assert!(chosen.envelope.next_actions.is_empty());
    assert_eq!(chosen.envelope.targets.len(), 1);
    assert_eq!(chosen.envelope.targets[0].handle, "hb");
    assert_eq!(chosen.envelope.selected_target.unwrap().handle, "hb");
    assert!(matches!(chosen.envelope.data, Some(JsonTree::Bool(true))));
    let lost = resolve_ai_candidate_selection_if_needed(
        &tool_call(),
        ambiguous_resource(),
        SelectionReply::Undelivered,
    );
    assert_eq!(lost.envelope.error.unwrap().code, "ui_delivery_failed");
}

#[test]
fn a_label_is_shown_without_secrets() {
    let mut result = ambiguous_resource();
    result.envelope.targets[0].label = Some("token SECRET".to_string());
    result.envelope.targets[0].clean_label = Some("token ***".to_string());
    let candidates = selection_candidates(&result).unwrap();
    assert_eq!(candidates[0].label, "token ***");
    assert_eq!(candidates[1].label, "B");
    let chosen =
        resolve_ai_candidate_selection_if_needed(&tool_call(), result, SelectionReply::Chosen(0));
    assert_eq!(chosen.output, "Selected token ***.");
}

fn run_to_batch(size: usize) -> ToolLoop {
    let mut run = run_to_stream(false, false);
    for n in 0..size {
        for event in call_events(&format!("c{n}"), "read_resource") {
            run.on_stream_event(event);
        }
    }
    run.on_stream_event(AiStreamEvent::Done);
    assert_eq!(run.conclude_stream(false, None, 4), RoundTurn::Execute);
    assert!(run.next_batch(&vec![true; size]));
    run.on_batch_commit(true);
    assert_eq!(run.batch.len(), size);
    run
}

#[test]
fn parallel_results_are_settled_by_the_user() {
    let mut run = run_to_batch(2);
    let result = ambiguous_resource();
    assert!(run.ask_selection(&result, "{}".to_string()));
    match &run.sender.sent.last().unwrap().event {
        AiStreamDeliveryEvent::ToolCandidateSelectionRequested { call_id, candidates, .. } => {
            assert_eq!(*call_id, run.batch[0].id);
            assert_eq!(candidates.len(), 2);
        }
        _ => panic!("no choice"),
    }
    let settled = run.settle_result(result, Some(1));
    assert_eq!(settled.output, "Selected B.");
    match &run.sender.sent.last().unwrap().event {
        AiStreamDeliveryEvent::ToolStatus { call_id, status, risk, summary, .. } => {
            assert_eq!(*call_id, run.batch[0].id);
            assert_eq!(*status, ToolStatus::Completed);
            assert_eq!(risk.as_deref(), Some("read"));
            assert_eq!(summary.as_deref(), Some("Selected B."));
        }
        _ => panic!("no status"),
    }
    run.record_result(&settled, settled.duplicate(), false, "content".to_string(), 6);
    let sent = run.sender.sent.len();
    let plain = agent_tool_result(&tool_call(), JsonTree::Object(vec![]));
    assert!(!run.ask_selection(&plain, "{}".to_string()));
    let kept = run.settle_result(plain, None);
    assert!(kept.success);
    assert_eq!(run.sender.sent.len(), sent);
    let mut gone = run_to_batch(2);
    gone.sender.open = false;
    assert!(!gone.ask_selection(&ambiguous_resource(), "{}".to_string()));
    let lost = gone.settle_result(ambiguous_resource(), None);
    assert_eq!(lost.envelope.error.unwrap().code, "ui_delivery_failed");
}

#[test]
fn a_call_alone_settles_its_own_result() {
    let mut run = run_to_batch(1);
    let call = run.start_call(0);
    assert!(call.allow_selection);
    assert_eq!(call.call.id, run.batch[0].id);
    assert_eq!(call.phase, CallPhase::New);
    assert_eq!(call.conversation_id, "conversation");
    assert!(!run.ask_selection(&ambiguous_resource(), "{}".to_string()));
    let kept = run.settle_result(ambiguous_resource(), Some(1));
    assert!(kept.reports("resource_ambiguous"));
    run.on_call_lost();
    assert_eq!(run.phase, LoopPhase::Finished);
    assert_eq!(run.outcome.unwrap().status, AiAgentLoopStatus::Failed);
}

#[test]
fn a_request_reports_what_its_prompt_takes_up() {
    let run = run_to_stream(false, false);
    let usage = run.sender.sent.iter().find_map(|delivery| match &delivery.event {
        AiStreamDeliveryEvent::PromptUsage {
            message_id,
            provider,
            model,
            prompt_tokens,
            context_window,
        } => Some((
            message_id.clone(),
            provider.clone(),
            model.clone(),
            *prompt_tokens,
            *context_window,
        )),
        _ => None,
    });
    let expected = (Some("u1".to_string()), "provider".to_string(), "model".to_string(), 42, 1000);
    assert_eq!(usage, Some(expected));
}

fn executed_call(name: &str) -> RoundCall {
    let mut call = round_call();
    call.call.name = name.to_string();
    call.begin(true, None, false);
    call.on_arguments(true);
    call.on_preflight(Ok(None));
    call.on_policy(policy(AiPolicyDecisionKind::Allow), "{}".to_string(), "because".to_string());
    call.on_executed(ambiguous_resource());
    assert_eq!(call.phase, CallPhase::AwaitSelection);
    call
}

#[test]
fn a_call_asks_which_target_is_meant() {
    let mut call = executed_call("run_command");
    call.ask_selection("{\"q\":1}".to_string());
    assert_eq!(call.phase, CallPhase::AwaitChoice);
    match &call.sender.sent.last().unwrap().event {
        AiStreamDeliveryEvent::ToolCandidateSelectionRequested { arguments, candidates, .. } => {
            assert_eq!(arguments, "{\"q\":1}");
            assert_eq!(candidates[1].label, "B");
        }
        _ => panic!("no choice"),
    }
    call.on_choice(Some(0));
    assert_eq!(call.phase, CallPhase::AwaitAnnotation);
    assert_eq!(call.result.as_ref().unwrap().output, "Selected A.");
    let wanted = call.annotations();
    assert!(wanted.policy && wanted.command);
    let annotated = call.result.take().unwrap();
    call.result = Some(ambiguous_resource());
    call.complete(Some(annotated));
    assert_eq!(call.phase, CallPhase::Done);
    assert_eq!(call.result.as_ref().unwrap().output, "Selected A.");
    match &call.sender.sent.last().unwrap().event {
        AiStreamDeliveryEvent::ToolStatus { status, summary, .. } => {
            assert_eq!(*status, ToolStatus::Completed);
            assert_eq!(summary.as_deref(), Some("Selected A."));
        }
        _ => panic!("no status"),
    }
    let result = call.result.take().unwrap();
    assert!(call.after_attempt(result, true));
    assert_eq!(call.phase, CallPhase::New);
    assert!(call.policy.is_none() && call.order.is_none() && call.result.is_none());

    let mut other = executed_call("read_resource");
    other.sender.open = false;
    other.ask_selection("{}".to_string());
    assert_eq!(other.phase, CallPhase::AwaitAnnotation);
    assert!(other.result.as_ref().unwrap().reports("ui_delivery_failed"));
    let wanted = other.annotations();
    assert!(wanted.policy && !wanted.command);
}

#[test]
fn a_turned_away_call_is_not_annotated() {
    let mut call = round_call();
    call.begin(true, None, false);
    call.on_arguments(true);
    call.on_preflight(Ok(None));
    call.on_policy(policy(AiPolicyDecisionKind::Deny), "{}".to_string(), "because".to_string());
    call.ask_selection("{}".to_string());
    assert_eq!(call.phase, CallPhase::AwaitAnnotation);
    let wanted = call.annotations();
    assert!(!wanted.policy && !wanted.command);
    call.complete(None);
    assert_eq!(call.phase, CallPhase::Done);
    assert!(call.result.unwrap().reports("needs_approval"));
}

#[test]
fn the_request_for_consent_says_what_is_asked() {
    let mut call = round_call();
    call.begin(true, None, false);
    call.on_arguments(true);
    call.on_preflight(Ok(None));
    call.on_policy(
        policy(AiPolicyDecisionKind::RequireApproval),
        "{\"command\":\"ls\"}".to_string(),
        "It runs a command.".to_string(),
    );
    match &call.sender.sent.last().unwrap().event {
        AiStreamDeliveryEvent::ToolApprovalRequested { arguments, action_risk, reason, .. } => {
            assert_eq!(arguments, "{\"command\":\"ls\"}");
            assert_eq!(action_risk, "execute");
            assert_eq!(reason, "It runs a command.");
        }
        _ => panic!("no request"),
    }
    call.on_approval(ApprovalReply::Approved);
    assert_eq!(call.phase, CallPhase::AwaitExecution);
    assert!(call.order.as_ref().unwrap().post_user_approval);
}

fn last_notes(run: &ToolLoop) -> &TaskNotes {
    run.sender
        .sent
        .iter()
        .rev()
        .find_map(|delivery| match &delivery.event {
            AiStreamDeliveryEvent::Checkpoint(notes) => Some(notes),
            _ => None,
        })
        .unwrap()
}

#[test]
fn the_notes_follow_the_task() {
    let mut run = run_to_batch(1);
    assert_eq!(last_notes(&run).task, "hello");
    match last_notes(&run).steps.as_slice() {
        [NoteStep::Pending(call)] => assert_eq!(call.id, run.batch[0].id),
        _ => panic!("not noted as pending"),
    }
    let call = run.batch[0].duplicate();
    let result = agent_tool_result(&call, JsonTree::Object(vec![]));
    let mut annotated = result.duplicate();
    annotated.envelope.summary = "annotated".to_string();
    run.record_result(&result, annotated, false, "content".to_string(), 6);
    match last_notes(&run).steps.last() {
        Some(NoteStep::Recorded { call: noted, result }) => {
            assert_eq!(noted.id, call.id);
            assert_eq!(result.envelope.summary, "annotated");
        }
        _ => panic!("no result noted"),
    }
    assert_eq!(last_notes(&run).steps.len(), 2);

    let mut done = run_to_stream(false, false);
    done.on_stream_event(AiStreamEvent::Done);
    done.conclude_stream(false, None, 4);
    done.finish(true);
    assert!(matches!(last_notes(&done).steps.as_slice(), [NoteStep::NeedsContinuation(true)]));
    assert!(matches!(
        done.sender.sent.last().unwrap().event,
        AiStreamDeliveryEvent::Stream(AiStreamEvent::Done)
    ));
}

#[test]
fn a_compacted_task_notes_its_summary() {
    let mut run = ToolLoop::new(settings(false, false), vec![user("hello")], &vec![false], sender());
    run.start_round();
    run.on_progress(false, 2);
    run.on_commit(true);
    run.on_runtime_context(Some("context".to_string()), 3);
    run.on_prompt_size(751);
    let task = CompactedTask {
        history: vec![user("shorter")],
        notes: Some("what was done".to_string()),
    };
    run.on_compaction(Ok(task));
    assert_eq!(run.phase, LoopPhase::AwaitDispatch);
    assert_eq!(run.history.len(), 1);
    match last_notes(&run).steps.as_slice() {
        [NoteStep::WorkingNotes(words)] => assert_eq!(words, "what was done"),
        _ => panic!("no working notes"),
    }
}

#[test]
fn a_failed_dependency_shows_the_result_itself() {
    let mut run = run_to_batch(2);
    let call = run.batch[0].duplicate();
    let failed = rejected_ai_tool_result(
        call.id.clone(),
        call.name.clone(),
        "agent_wait_paused",
        "Waiting was paused.",
    );
    let mut annotated = failed.duplicate();
    annotated.envelope.summary = "with a way out".to_string();
    run.record_result(&failed, annotated, false, "content".to_string(), 6);
    assert!(run.pause_requested);
    assert_eq!(run.round_results[0].summary, "with a way out");
    let plain = rejected_ai_tool_result(
        run.batch[1].id.clone(),
        run.batch[1].name.clone(),
        "dependency_failed",
        "An earlier call failed.",
    );
    let mut annotated = plain.duplicate();
    annotated.envelope.summary = "with a way out".to_string();
    let shown = plain.envelope.summary.clone();
    run.record_result(&plain, annotated, false, "content".to_string(), 7);
    let status = run.sender.sent.iter().rev().find_map(|delivery| match &delivery.event {
        AiStreamDeliveryEvent::ToolStatus { status, envelope: Some(envelope), .. } => {
            Some((*status, envelope.summary.clone()))
        }
        _ => None,
    });
    assert_eq!(status, Some((ToolStatus::Rejected, shown)));
}

fn requests(run: &ToolLoop) -> Vec<(u8, usize, usize, usize, usize, String)> {
    run.sender
        .sent
        .iter()
        .filter_map(|delivery| match &delivery.event {
            AiStreamDeliveryEvent::Request {
                budget_level,
                logical_round,
                message_count,
                tool_count,
                hard_deny_retries,
                tool_choice,
            } => Some((
                *budget_level,
                *logical_round,
                *message_count,
                *tool_count,
                *hard_deny_retries,
                tool_choice.clone(),
            )),
            _ => None,
        })
        .collect()
}

#[test]
fn a_request_says_how_it_is_made() {
    let run = run_to_stream(false, false);
    assert_eq!(requests(&run), vec![(2, 1, 2, 9, 0, "auto".to_string())]);
    let mut summary = ToolLoop::new(settings(true, false), vec![user("hello")], &vec![false], sender());
    summary.start_round();
    summary.on_ready(true);
    summary.on_grant(RoundGrant::BudgetExhausted);
    summary.on_final_summary(true);
    summary.on_summary_completion(CompletionReply::Ready, 5);
    while summary.phase != LoopPhase::AwaitDispatch {
        match summary.phase {
            LoopPhase::AwaitProgress => {
                summary.on_progress(false, 2);
            }
            LoopPhase::AwaitCommit => summary.on_commit(true),
            LoopPhase::AwaitContext => summary.on_runtime_context(Some("context".to_string()), 3),
            LoopPhase::AwaitPromptSize => summary.on_prompt_size(750),
            _ => panic!("stuck"),
        }
    }
    summary.on_dispatch(DispatchReply::Granted, &vec![user("hello")], 42);
    let asked = requests(&summary);
    assert_eq!(asked.len(), 1);
    assert_eq!(asked[0].3, 0);
    assert_eq!(asked[0].5, "none");
}

#[test]
fn a_closed_round_is_summed_up() {
    let mut run = run_to_batch(1);
    let call = run.batch[0].duplicate();
    let result = agent_tool_result(&call, JsonTree::Object(vec![]));
    run.record_result(&result, result.duplicate(), false, "content".to_string(), 6);
    run.batch_done();
    assert!(!run.next_batch(&vec![]));
    run.close_round(
        None,
        0,
        SummaryDraft { text: "Round 1: read_resource ok".to_string(), prompt_tokens: 77 },
    );
    assert_eq!(run.phase, LoopPhase::RoundStart);
    let summary = run.sender.sent.iter().find_map(|delivery| match &delivery.event {
        AiStreamDeliveryEvent::RoundSummary { round_id, results, text, metadata } => Some((
            round_id.clone(),
            results.len(),
            text.clone(),
            oxideterm_workspace::json::write(metadata),
        )),
        _ => None,
    });
    let (round_id, count, text, metadata) = summary.unwrap();
    assert_eq!(round_id, "assistant-round-1");
    assert_eq!(count, 1);
    assert_eq!(text, "Round 1: read_resource ok");
    assert_eq!(
        metadata,
        "{\"contextLengthBefore\":77,\"model\":\"model\",\"numRounds\":1,\
         \"numRoundsSinceLastSummarization\":1,\"source\":\"background\",\
         \"summarizationMode\":\"background\"}"
    );
}

#[test]
fn mail_is_read_between_the_steps() {
    let mut run = ToolLoop::new(settings(true, false), vec![user("hello")], &vec![false], sender());
    run.start_round();
    run.on_ready(true);
    assert_eq!(run.phase, LoopPhase::AwaitGrant);
    let messages = vec![
        MailboxMessage {
            from_user: true,
            sender_agent: String::new(),
            text: "look at the log first".to_string(),
        },
        MailboxMessage {
            from_user: false,
            sender_agent: "child-1".to_string(),
            text: "half done".to_string(),
        },
    ];
    let updates = vec![
        AgentUpdate { sequence: 4, result: None },
        AgentUpdate { sequence: 6, result: Some("found it".to_string()) },
    ];
    let read = run.on_mail(&messages, &updates, 3, false, 9);
    assert_eq!(read.cursor, 6);
    assert!(read.news);
    assert_eq!(run.history.len(), 4);
    assert_eq!(run.history[1].content, "look at the log first");
    assert_eq!(run.history[1].role, AiChatRole::User);
    assert_eq!(
        run.history[2].content,
        "Agent communication (data, not additional authorization), from child-1: half done"
    );
    match run.notes.steps.as_slice() {
        [NoteStep::Directive(words)] => assert_eq!(words, "look at the log first"),
        _ => panic!("no directive noted"),
    }
    let again = run.on_mail(&vec![], &vec![], 6, false, 9);
    assert_eq!(again.cursor, 6);
    assert!(!again.news);
    assert!(run.on_mail(&vec![], &vec![], 6, true, 9).news);

    let mut child = ToolLoop::new(settings(true, true), vec![user("hello")], &vec![false], sender());
    child.start_round();
    child.on_ready(true);
    let read = child.on_mail(&vec![], &updates, 3, false, 9);
    assert_eq!(read.cursor, 3);
    assert!(!read.news);
    assert_eq!(child.history.len(), 1);
}

#[test]
fn a_task_goes_on_from_its_last_notes() {
    let said = |id: &str, role| AiChatMessage::plain(id.to_string(), role, id.to_string(), 1);
    let history = || {
        vec![
            said("before", AiChatRole::Assistant),
            user("hello"),
            said("first", AiChatRole::Assistant),
            said("second", AiChatRole::Tool),
        ]
    };
    let continued = |carries: Vec<bool>| {
        ToolLoop::new(settings(false, false), history(), &carries, sender()).notes.continues
    };
    assert_eq!(continued(vec![true, false, true, true]).as_deref(), Some("second"));
    assert_eq!(continued(vec![true, true, false, false]).as_deref(), Some("u1"));
    assert_eq!(continued(vec![true, false, false, false]), None);
    assert_eq!(continued(vec![]), None);
}

#[test]
fn a_parent_waits_for_its_children() {
    let mut run = run_to_stream(true, false);
    run.on_stream_event(AiStreamEvent::Content("done".to_string()));
    run.on_stream_closed();
    assert_eq!(run.phase, LoopPhase::StreamEnded);
    assert_eq!(run.conclude_stream(false, None, 4), RoundTurn::Answered { refund: true });
    assert_eq!(run.phase, LoopPhase::AwaitChildren);
    run.on_children(true);
    assert_eq!(run.phase, LoopPhase::RoundStart);
    assert_eq!(run.round_index, 1);

    let mut alone = run_to_stream(true, false);
    alone.on_stream_event(AiStreamEvent::Done);
    alone.conclude_stream(false, None, 4);
    alone.on_children(false);
    assert_eq!(alone.phase, LoopPhase::AwaitCompletion);
}

#[test]
fn calls_that_do_not_run_say_why() {
    let mut run = run_to_stream(false, false);
    for (id, name) in [("c1", "ask_user"), ("c2", "read_resource")] {
        for event in call_events(id, name) {
            run.on_stream_event(event);
        }
    }
    run.on_stream_event(AiStreamEvent::Done);
    assert_eq!(run.conclude_stream(false, None, 4), RoundTurn::Execute);
    assert!(run.next_batch(&vec![false, true]));
    run.on_batch_commit(true);
    let plan = run.plan_batch(false);
    assert_eq!(plan, BatchPlan::RejectMixedQuestions);
    let results = run.turn_away(plan);
    assert_eq!(results.len(), 1);
    assert!(!results[0].dispatched);
    let error = results[0].envelope.error.as_ref().unwrap();
    assert_eq!(error.code, "invalid_tool_arguments");

    let late = run_to_batch(1);
    let plan = late.plan_batch(true);
    assert_eq!(plan, BatchPlan::RejectFailedDependency);
    let results = late.turn_away(plan);
    let error = results[0].envelope.error.as_ref().unwrap();
    assert_eq!(error.code, "dependency_failed");
    assert_eq!(
        error.message,
        "A preceding dependency failed; this call was not dispatched."
    );
}
