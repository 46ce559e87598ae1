use oxideterm_workspace::ai::agent_answers::{
    delegation_answer, message_answer, result_answer, stop_answer,
};
use oxideterm_workspace::ai::agent_commands::{
    child_history, child_tools, group_scope_tools, plan_agent_command, plan_child_command,
    plan_coordination, AgentCommand, ChildCommand, CoordinationError, CoordinationStep,
    DelegationTarget,
};
use oxideterm_workspace::ai::agent_run::{
    append_agent_mailbox, mail_is_news, new_directives, AgentUpdate, MailboxMessage,
};
use oxideterm_workspace::ai::coordination::{
    answer_agent_command, answer_coordination, host_answer, parent_answer, progress_answer,
    refused_coordination, wait_answer, AgentEvent, CoordinationFailure,
};
use oxideterm_workspace::ai::checkpoint::{
    evidence_positions, evidence_text, fragment_budget, fragment_prefix, summary_chunk_end, CompactionError, EvidencePart,
    SummaryEvent, SummaryPhase, TaskCompaction,
};
use oxideterm_workspace::ai::local_command::{
    AiOwnedCommandTask, CommandEvent, CommandReply, CommandWatch, LeaseNews, WatchPhase,
};
use oxideterm_workspace::ai::messages::{AiChatMessage, AiChatRole, AiToolCall};
use oxideterm_workspace::ai::models::{
    check_child_key, find_provider, list_models, plan_child_model, AgentModel, AiProviderView,
    KeyReply, ModelStep,
};
use oxideterm_workspace::ai::tool_loop::AiActionRisk;
use oxideterm_workspace::ai::tool_resources::{
    admit_tool, lease_step, monitor_step, on_acquired, resource_keys, AcquireReply, LeaseStep,
    MonitorStep, ResourceError, ResourceReply,
};
use oxideterm_workspace::ai::wipe::clear_history_source;
use oxideterm_workspace::ai_state::model::AgentRunRef;
use oxideterm_workspace::ids::tool_call_id;
use oxideterm_workspace::json::{parse, JsonTree};
use oxideterm_workspace::table::Table;

fn texts(list: &[&str]) -> Vec<String> {
    list.iter().map(|text| text.to_string()).collect()
}

fn plain(id: &str, role: AiChatRole, content: &str) -> AiChatMessage {
    AiChatMessage::plain(id.to_string(), role, content.to_string(), 1)
}

fn run() -> AgentRunRef {
    AgentRunRef {
        group_id: "g".to_string(),
        agent_id: "a".to_string(),
        run_id: "r".to_string(),
    }
}

#[test]
fn children_report_and_ask_but_do_not_coordinate() {
    let plan = |child: bool, name: &str, arguments: &str| {
        plan_coordination(true, child, true, name, arguments)
    };
    assert!(matches!(
        plan(true, "report_progress", "{\"text\":\"half way\"}"),
        CoordinationStep::ReportProgress(text) if text == "half way"
    ));
    assert!(matches!(
        plan(true, "ask_parent", "{\"question\":\"  \"}"),
        CoordinationStep::Refuse(CoordinationError::InvalidState)
    ));
    assert!(matches!(
        plan(true, "ask_parent", "{\"question\":\"why\"}"),
        CoordinationStep::AskParent(text) if text == "why"
    ));
    assert!(matches!(
        plan(true, "delegate_task", "{}"),
        CoordinationStep::Refuse(CoordinationError::ParentOnly)
    ));
    assert!(matches!(
        plan(true, "report_progress", "not json"),
        CoordinationStep::Refuse(CoordinationError::InvalidArguments)
    ));
    assert!(matches!(
        plan_coordination(false, true, true, "report_progress", "{}"),
        CoordinationStep::Refuse(CoordinationError::Unavailable)
    ));
    assert!(matches!(plan(false, "wait_agents", "{}"), CoordinationStep::WaitAgents));
    assert!(matches!(plan(false, "delegate_task", "{}"), CoordinationStep::HostCommand));
}

fn targets() -> Table<String, DelegationTarget> {
    let mut targets = Table::new();
    targets.insert(
        "h1".to_string(),
        DelegationTarget { owner: "owner-1".to_string(), label: "Server".to_string() },
    );
    targets
}

fn delegate(arguments: &str, enabled: bool) -> Result<AgentCommand, String> {
    plan_agent_command(
        true,
        false,
        "delegate_task",
        arguments,
        enabled,
        &targets(),
        &texts(&["run_command", "manage_settings"]),
    )
}

#[test]
fn tasks_are_delegated_with_what_can_be_delegated() {
    let request =
        delegate("{\"title\":\"T\",\"task\":\"do it\",\"target_handles\":[\"h1\"]}", true);
    match request {
        Ok(AgentCommand::Delegate(request)) => {
            assert_eq!(request.title, "T");
            assert_eq!(request.task, "do it");
            assert_eq!(request.owners, texts(&["owner-1"]));
            assert_eq!(request.labels, texts(&["Server"]));
            assert_eq!(request.tools, texts(&["run_command"]));
        }
        _ => panic!("the task can be delegated"),
    }
}

#[test]
fn bad_delegations_say_what_is_wrong() {
    let error = |arguments: &str, enabled: bool| delegate(arguments, enabled).err().unwrap();
    assert_eq!(error("{}", false), "Subagents are disabled for this conversation");
    assert_eq!(error("{}", true), "Invalid title");
    assert_eq!(error("{\"title\":\"T\"}", true), "Invalid task");
    assert_eq!(
        error("{\"title\":\"T\",\"task\":\"x\"}", true),
        "Select one or more discovered target handles"
    );
    assert_eq!(
        error("{\"title\":\"T\",\"task\":\"x\",\"target_handles\":[1]}", true),
        "Invalid target handle"
    );
    assert_eq!(
        error("{\"title\":\"T\",\"task\":\"x\",\"target_handles\":[\"h2\"]}", true),
        "Rediscover the target before delegating"
    );
    assert_eq!(
        error("{\"title\":\"T\",\"task\":\"x\",\"target_handles\":[\"h1\"],\"tools\":1}", true),
        "Invalid tool scope"
    );
    let plan = |known: bool, child: bool, name: &str, arguments: &str| {
        plan_agent_command(known, child, name, arguments, true, &targets(), &vec![]).err()
    };
    assert_eq!(plan(false, false, "x", "{}").as_deref(), Some("Agent run is unavailable"));
    assert_eq!(
        plan(true, true, "x", "{}").as_deref(),
        Some("Only the parent can coordinate agents")
    );
    assert_eq!(plan(true, false, "x", "[").as_deref(), Some("Invalid agent arguments"));
    assert_eq!(plan(true, false, "x", "{}").as_deref(), Some("Invalid agent_id"));
    assert_eq!(plan(true, false, "x", "{\"agent_id\":\"7\"}"), None);
}

#[test]
fn commands_to_children_are_read() {
    let arguments = parse("{\"message\":\"go on\",\"details\":true}").unwrap();
    assert!(matches!(
        plan_child_command("send_agent_message", &arguments, false),
        Ok(ChildCommand::Answer(text)) if text == "go on"
    ));
    assert!(matches!(
        plan_child_command("send_agent_message", &arguments, true),
        Ok(ChildCommand::FollowUp(_))
    ));
    assert!(matches!(
        plan_child_command("read_agent_result", &arguments, true),
        Ok(ChildCommand::ReadResult { details: true })
    ));
    assert!(matches!(
        plan_child_command("stop_agent", &arguments, true),
        Ok(ChildCommand::Stop)
    ));
    assert_eq!(
        plan_child_command("dance", &arguments, true).err().as_deref(),
        Some("Unknown agent operation")
    );
    assert_eq!(
        plan_child_command("send_agent_message", &JsonTree::Null, true).err().as_deref(),
        Some("Invalid message")
    );
}

#[test]
fn answers_name_the_run() {
    let answer = delegation_answer(&run());
    assert_eq!(answer.member_text("agent_id"), Some("a"));
    assert_eq!(answer.member_text("run_id"), Some("r"));
    assert_eq!(answer.member_text("status"), Some("queued"));
    let answer = message_answer(&run(), 42);
    assert!(matches!(answer.member("sequence"), Some(JsonTree::Number(n)) if n == "42"));
    assert_eq!(answer.member_text("status"), Some("received"));
    let answer = stop_answer();
    assert_eq!(answer.member_boolean("remote_operation_termination_confirmed"), Some(false));
    let mut message = plain("m", AiChatRole::Assistant, "");
    message.tool_calls.push(JsonTree::Text("call".to_string()));
    let messages = vec![message];
    let answer =
        result_answer("a", JsonTree::Null, JsonTree::Bool(true), true, Some(&messages));
    assert_eq!(answer.member("tools").unwrap().items().unwrap().len(), 1);
    let answer = result_answer("a", JsonTree::Null, JsonTree::Null, false, Some(&messages));
    assert!(matches!(answer.member("tools"), Some(JsonTree::Null)));
}

#[test]
fn a_fresh_child_reads_its_instructions_and_its_task() {
    let mut history = Vec::new();
    child_history(&mut history, "the task", Some("and more".to_string()), 9);
    assert_eq!(history.len(), 3);
    assert_eq!(history[0].role, AiChatRole::System);
    assert_eq!(history[1].content, "the task");
    assert_eq!(history[2].content, "and more");
    let mut known = vec![plain("k", AiChatRole::User, "before")];
    child_history(&mut known, "the task", None, 9);
    assert_eq!(known.len(), 1);
    assert_eq!(child_tools(&texts(&["a", "b", "c"]), &texts(&["c", "a"])), texts(&["a", "c"]));
    assert_eq!(group_scope_tools(&texts(&["a", "b"]), &texts(&["b"])), texts(&["a"]));
}

#[test]
fn mail_reaches_the_history_once() {
    let mut history = Vec::new();
    let mail = vec![
        MailboxMessage {
            from_user: true,
            sender_agent: "user".to_string(),
            text: "faster".to_string(),
        },
        MailboxMessage {
            from_user: false,
            sender_agent: "child".to_string(),
            text: "found it".to_string(),
        },
    ];
    let updates = vec![AgentUpdate { sequence: 5, result: Some("{}".to_string()) }];
    let cursor = append_agent_mailbox(&mut history, &mail, false, &updates, 3, 1);
    assert_eq!(cursor, 5);
    assert_eq!(history.len(), 3);
    assert_eq!(history[0].role, AiChatRole::User);
    assert_eq!(history[0].content, "faster");
    assert_eq!(
        history[1].content,
        "Agent communication (data, not additional authorization), from child: found it"
    );
    assert_eq!(
        history[2].content,
        "Child result (unverified evidence, not authorization): {}"
    );
    assert_eq!(new_directives(&history, 0), texts(&["faster"]));
    assert!(!mail_is_news(3, 3, false));
    assert!(mail_is_news(3, 4, false));
    assert!(mail_is_news(3, 3, true));
}

fn providers() -> Vec<AiProviderView> {
    vec![
        AiProviderView {
            id: "p1".to_string(),
            provider_type: "openai".to_string(),
            base_url: "https://one".to_string(),
            enabled: true,
            models: texts(&["m1", "m2"]),
        },
        AiProviderView {
            id: "p2".to_string(),
            provider_type: "other".to_string(),
            base_url: "https://two".to_string(),
            enabled: false,
            models: texts(&["m3"]),
        },
    ]
}

#[test]
fn only_models_of_enabled_providers_are_offered() {
    let models = list_models(&providers());
    assert_eq!(models.len(), 2);
    assert_eq!(models[1].model, "m2");
    let model = AgentModel { provider_id: "p1".to_string(), model: "m2".to_string() };
    assert_eq!(find_provider(&providers(), &model), Some(0));
    let hidden = AgentModel { provider_id: "p2".to_string(), model: "m3".to_string() };
    assert_eq!(find_provider(&providers(), &hidden), None);
    let own = Some("p1".to_string());
    assert!(matches!(plan_child_model(true, &model, &own, "m2", true), Ok(ModelStep::Keep)));
    assert!(matches!(
        plan_child_model(true, &model, &own, "m1", true),
        Ok(ModelStep::SwitchModel)
    ));
    assert!(matches!(
        plan_child_model(true, &model, &None, "m1", true),
        Ok(ModelStep::LookUpKey)
    ));
    assert!(plan_child_model(false, &model, &own, "m2", true).is_err());
    assert!(plan_child_model(true, &model, &own, "m1", false).is_err());
    assert!(check_child_key(KeyReply::Found, true).is_ok());
    assert!(check_child_key(KeyReply::Missing, false).is_ok());
    assert_eq!(
        check_child_key(KeyReply::Missing, true).err().as_deref(),
        Some("The selected provider requires an API key")
    );
    assert_eq!(
        check_child_key(KeyReply::Cancelled, true).err().as_deref(),
        Some("Subagent was cancelled")
    );
    assert_eq!(
        check_child_key(KeyReply::Interrupted, true).err().as_deref(),
        Some("Provider key access was interrupted")
    );
    assert_eq!(
        check_child_key(KeyReply::Refused, true).err().as_deref(),
        Some("Cannot access the selected provider key")
    );
}

#[test]
fn resources_are_named_in_one_order() {
    let mut owned: Table<String, String> = Table::new();
    owned.insert("h2".to_string(), "b".to_string());
    owned.insert("h1".to_string(), "a".to_string());
    let arguments = parse(
        "{\"target_handle_id\":\"h2\",\"more\":{\"list\":[{\"handle_id\":\"h1\"},{\"handle_id\":\"h2\"}]}}",
    ).unwrap();
    let keys = resource_keys(
        true,
        "write_resource",
        AiActionRisk::Write,
        &arguments,
        &owned,
        "workspace".to_string(),
    );
    assert_eq!(keys.ok().unwrap(), texts(&["a", "b"]));
    let expired = parse("{\"handle_id\":\"h3\"}").unwrap();
    assert!(matches!(
        resource_keys(
            true,
            "write_resource",
            AiActionRisk::Write,
            &expired,
            &owned,
            "workspace".to_string()
        ),
        Err(ResourceError::TargetExpired)
    ));
    assert_eq!(ResourceError::TargetExpired.message(), "Runtime target expired");
    let nothing = resource_keys(
        true,
        "write_resource",
        AiActionRisk::Write,
        &JsonTree::Null,
        &owned,
        "workspace".to_string(),
    );
    assert_eq!(nothing.ok().unwrap(), texts(&["workspace"]));
    let read = resource_keys(
        true,
        "read_resource",
        AiActionRisk::Read,
        &arguments,
        &owned,
        "workspace".to_string(),
    );
    assert!(read.ok().unwrap().is_empty());
    assert!(matches!(
        resource_keys(
            false,
            "write_resource",
            AiActionRisk::Write,
            &arguments,
            &owned,
            "workspace".to_string()
        ),
        Err(ResourceError::RunInactive)
    ));
    assert!(admit_tool("c".to_string(), "t".to_string(), false, ResourceReply::Keys(vec![]))
        .is_err());
    assert!(admit_tool("c".to_string(), "t".to_string(), true, ResourceReply::HostGone).is_err());
    assert!(
        admit_tool("c".to_string(), "t".to_string(), true, ResourceReply::Unavailable).is_err()
    );
    assert!(admit_tool("c".to_string(), "t".to_string(), true, ResourceReply::Keys(vec![]))
        .is_ok());
    assert_eq!(lease_step("run_command", false), LeaseStep::Acquire);
    assert!(on_acquired("c".to_string(), "t".to_string(), AcquireReply::Acquired).is_ok());
    assert!(on_acquired("c".to_string(), "t".to_string(), AcquireReply::Cancelled).is_err());
    assert!(on_acquired("c".to_string(), "t".to_string(), AcquireReply::Unresolved).is_err());
    assert_eq!(monitor_step(true, Some(true), true, true), MonitorStep::Finish);
    assert_eq!(monitor_step(true, Some(true), true, false), MonitorStep::Wait);
    assert_eq!(monitor_step(true, None, true, true), MonitorStep::Invalidate);
    assert_eq!(monitor_step(true, Some(true), false, false), MonitorStep::Wait);
    assert_eq!(monitor_step(false, Some(true), false, false), MonitorStep::Stop);
}

#[test]
fn a_command_that_takes_long_asks_the_user() {
    let mut watch = CommandWatch::new(texts(&["lease"]));
    watch.on_event(CommandEvent::TimedOut);
    assert_eq!(watch.phase, WatchPhase::AskingToWait);
    watch.on_event(CommandEvent::WaitAnswered(Some(false)));
    assert_eq!(watch.reply, Some(CommandReply::Paused));
    watch.on_event(CommandEvent::ProcessEnded(Some(Some("exited".to_string()))));
    assert_eq!(watch.phase, WatchPhase::Ended);
    assert_eq!(watch.reply, Some(CommandReply::Paused));
    assert!(watch.task.aborted);
    let paused = CommandReply::Paused.action().unwrap();
    assert!(!paused.ok);
    assert_eq!(paused.error_code, Some("agent_wait_paused"));
    assert_eq!(paused.summary, "Observation paused; the local command may still be running.");
    assert!(paused.data.is_none());
    assert!(CommandReply::Result.action().is_none());
    let mut answered = CommandWatch::new(texts(&["lease"]));
    let waiting = answered.waiting_status(1_000, 500).unwrap();
    assert_eq!((waiting.status, waiting.risk), ("waiting_condition", "execute"));
    assert_eq!(oxideterm_workspace::json::write(&waiting.data), "{\"waitDeadline\":1500,\"waiting\":true}");
    answered.on_event(CommandEvent::TimedOut);
    let asking = answered.waiting_status(1_000, 500).unwrap();
    assert_eq!((asking.status, asking.risk), ("pending_user_approval", "read"));
    assert_eq!(oxideterm_workspace::json::write(&asking.data), "{\"commandId\":null,\"waitTimedOut\":true}");
    answered.on_event(CommandEvent::WaitAnswered(Some(true)));
    assert_eq!(answered.phase, WatchPhase::Running);
    answered.on_event(CommandEvent::DirectionChanged);
    assert_eq!(answered.reply, Some(CommandReply::StillRunning));
    assert!(answered.waiting_status(-5, 2).is_none());
    let running = CommandReply::StillRunning.action().unwrap();
    assert!(running.ok && running.error_code.is_none());
    assert_eq!(running.summary, "Local command is still running; task direction changed.");
    assert_eq!(
        oxideterm_workspace::json::write(&running.data.unwrap()),
        "{\"executionState\":\"running\",\"outcomeUnknown\":true}"
    );
    answered.on_event(CommandEvent::Cancelled);
    assert_eq!(answered.task.news.last().unwrap().1, LeaseNews::Unresolved);
    let mut task = AiOwnedCommandTask::new(texts(&["one", "two"]));
    task.release();
    assert_eq!(task.news.len(), 2);
}

#[test]
fn evidence_is_read_in_fragments_that_fit() {
    let tokens = |text: &str| text.len();
    assert_eq!(summary_chunk_end("abcdef", 10, &tokens), 6);
    assert_eq!(summary_chunk_end("abcdefghij", 4, &tokens), 4);
    assert_eq!(summary_chunk_end("ééé", 3, &tokens), 2);
    assert_eq!(summary_chunk_end("ééé", 1, &tokens), 0);
    assert_eq!(fragment_budget(10_000, 100, 1_000), 8_700);
    assert_eq!(fragment_budget(1_000, 100, 100), 672);
    assert!(fragment_prefix("notes").ends_with("notes\nNext history fragment:\n"));
    let history = vec![
        plain("1", AiChatRole::System, ""),
        plain("2", AiChatRole::User, ""),
        plain("3", AiChatRole::Tool, ""),
    ];
    assert_eq!(evidence_positions(&history), vec![1, 2]);
    let part = |role: &str, content: &str| EvidencePart {
        role: role.to_string(),
        content: content.to_string(),
        tool_calls: vec![],
    };
    let written = evidence_text(
        &history,
        &vec![part("system", "hidden"), part("user", "a\nb"), part("tool", "c")],
    );
    assert!(!written.contains("hidden"));
    assert!(written.starts_with("[{\"content\":\"a\\nb\",\"id\":\"2\","));
    let read = parse(&written).unwrap();
    assert_eq!(read.items().unwrap()[1].member_text("content"), Some("c"));

    let mut compaction = TaskCompaction::new("abcdef".to_string());
    assert_eq!(compaction.take_fragment(4, &tokens).as_deref(), Some("abcd"));
    compaction.on_summary(SummaryEvent::Content("notes".to_string()));
    compaction.on_summary(SummaryEvent::Done);
    assert_eq!(compaction.remaining, "ef");
    assert_eq!(compaction.take_fragment(4, &tokens).as_deref(), Some("ef"));
    compaction.on_summary(SummaryEvent::Content("more".to_string()));
    compaction.on_summary(SummaryEvent::Done);
    assert_eq!(compaction.phase, SummaryPhase::Measure);
    compaction.on_measured(900, 850, 1000);
    assert_eq!(compaction.phase, SummaryPhase::Committed);
}

#[test]
fn a_compaction_that_frees_nothing_is_given_up() {
    let tokens = |text: &str| text.len();
    let mut full = TaskCompaction::new("ééé".to_string());
    assert_eq!(full.take_fragment(1, &tokens), None);
    assert_eq!(full.error, Some(CompactionError::ContextFull));
    assert_eq!(CompactionError::ContextFull.code(), "agent_context_full");
    let mut silent = TaskCompaction::new("abc".to_string());
    silent.take_fragment(10, &tokens);
    silent.on_summary(SummaryEvent::Done);
    assert_eq!(silent.error, Some(CompactionError::Failed));
    assert_eq!(CompactionError::Failed.code(), "agent_compaction_failed");
    let mut closed = TaskCompaction::new("abc".to_string());
    closed.take_fragment(10, &tokens);
    closed.on_summary_closed();
    assert_eq!(closed.phase, SummaryPhase::Failed);
    let mut large = TaskCompaction::new(String::new());
    assert_eq!(large.phase, SummaryPhase::Measure);
    large.on_measured(900, 851, 1000);
    assert_eq!(large.error, Some(CompactionError::ContextFull));
}

#[test]
fn json_is_read_by_the_parser_it_came_from() {
    let tree = parse("{\"b\":[1,true,null],\"a\":\"x\"}").unwrap();
    assert_eq!(tree.member_text("a"), Some("x"));
    assert_eq!(tree.member("b").unwrap().items().unwrap().len(), 3);
    assert!(parse("{").is_none());
    let id = tool_call_id();
    assert!(id.starts_with("call_"));
    assert_eq!(id.len(), 37);
    assert_ne!(id, tool_call_id());
}

#[test]
fn sources_are_wiped() {
    let mut message = plain("m", AiChatRole::User, "secret");
    message.thinking_content = Some("secret".to_string());
    clear_history_source(&mut message);
    assert!(message.content.is_empty());
    assert!(!message.thinking_content.unwrap_or_default().contains("secret"));
}

fn coordination_call() -> AiToolCall {
    AiToolCall {
        id: "call-1".to_string(),
        name: "wait_agents".to_string(),
        arguments: "{}".to_string(),
    }
}

#[test]
fn a_coordination_that_comes_to_nothing_says_why() {
    let call = coordination_call();
    let refused = |failure: CoordinationFailure| {
        let result = refused_coordination(&call, &failure);
        assert_eq!(result.tool_call_id, "call-1");
        assert_eq!(result.tool_name, "wait_agents");
        assert!(!result.success);
        let error = result.envelope.error.unwrap();
        assert_eq!(error.code, "agent_operation_failed");
        error.message
    };
    assert_eq!(refused(CoordinationFailure::Unavailable), "Agent coordination is unavailable");
    assert_eq!(refused(CoordinationFailure::InvalidArguments), "Invalid agent arguments");
    assert_eq!(refused(CoordinationFailure::HostClosed), "Agent host closed");
    assert_eq!(refused(CoordinationFailure::Cancelled), "Agent operation was cancelled");
    assert_eq!(refused(CoordinationFailure::Runtime("busy".to_string())), "busy");
    let words = |error: CoordinationError| error.failure("not now".to_string()).words().to_string();
    assert_eq!(words(CoordinationError::Unavailable), "Agent coordination is unavailable");
    assert_eq!(words(CoordinationError::InvalidArguments), "Invalid agent arguments");
    assert_eq!(words(CoordinationError::InvalidState), "not now");
    assert_eq!(words(CoordinationError::ParentOnly), "not now");
}

#[test]
fn coordination_calls_are_answered() {
    let call = coordination_call();
    let progress = answer_coordination(&call, progress_answer(Ok(())));
    assert!(progress.success);
    assert_eq!(progress.output, "{\"status\":\"received\"}");
    let failed = answer_coordination(&call, progress_answer(Err("gone".to_string())));
    assert_eq!(failed.envelope.error.unwrap().message, "gone");

    let said = || JsonTree::Text("yes".to_string());
    let parent = answer_coordination(&call, parent_answer(Ok(vec![said()])));
    assert_eq!(parent.output, "{\"messages\":[\"yes\"]}");

    let events = vec![
        AgentEvent { sequence: 5, event: JsonTree::Text("started".to_string()) },
        AgentEvent { sequence: 8, event: JsonTree::Text("finished".to_string()) },
    ];
    let (cursor, answer) = wait_answer(3, Ok(events), vec![said()]);
    assert_eq!(cursor, 8);
    let waited = answer_coordination(&call, answer);
    assert_eq!(waited.output, "{\"events\":[\"started\",\"finished\"],\"messages\":[\"yes\"]}");
    assert_eq!(wait_answer(3, Ok(vec![]), vec![]).0, 3);
    let (cursor, answer) = wait_answer(3, Err("agent_wait_paused".to_string()), vec![said()]);
    assert_eq!(cursor, 3);
    assert!(answer.is_err());
}

#[test]
fn the_window_answers_commands_to_agents() {
    let call = coordination_call();
    let applied = answer_agent_command(&call, Ok(JsonTree::Object(vec![])));
    assert!(applied.success);
    assert_eq!(applied.output, "{}");
    let refused = answer_agent_command(&call, Err("No such agent".to_string()));
    assert_eq!(refused.envelope.error.as_ref().unwrap().message, "No such agent");
    let answered = host_answer(&call, true, Some(applied));
    assert_eq!(answered.output, "{}");
    let cancelled = host_answer(&call, true, None);
    assert_eq!(cancelled.envelope.error.unwrap().message, "Agent operation was cancelled");
    let closed = host_answer(&call, false, Some(refused));
    assert_eq!(closed.envelope.error.unwrap().message, "Agent host closed");
}
