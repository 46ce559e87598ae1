use oxideterm_workspace::ai::messages::{AiChatMessage, AiChatRole};
use oxideterm_workspace::ai::models::{AgentModel, AiProviderView};
use oxideterm_workspace::ai_state::compaction::SummaryConfig;
use oxideterm_workspace::ai_state::deliveries::{Delivery, OpenedStore};
use oxideterm_workspace::ai_state::entity::{HistoryEffect, HistoryWriteState};
use oxideterm_workspace::ai_state::journal::RevisionClock;
use oxideterm_workspace::ai_state::model::{
    AgentConversationOptions, AgentRecord, AgentRunRef, AgentSnapshot, AgentState, AgentUsage,
};
use oxideterm_workspace::json::JsonTree;
use oxideterm_workspace::table::Table;
use oxideterm_workspace::workspace::agent_groups::group_usage_label;
use oxideterm_workspace::workspace::agent_launch::{ChildRun, GroupConfig, RoundLimits};
use oxideterm_workspace::workspace::agent_settings::write_model;
use oxideterm_workspace::workspace::app::{AiSettings, WorkspaceApp};
use oxideterm_workspace::workspace::history_quit::{
    HistoryQuit, QuitAnswer, QuitPhase, QuitStep, StoppedMessage,
};
use oxideterm_workspace::workspace::knowledge_preview::{
    EditorScrollOrigin, KnowledgeDocumentEditor, KnowledgeEditorMode, KnowledgeEditorUiState,
    PreviewStep, SourceAnchor,
};
use oxideterm_workspace::workspace::knowledge_toolbar::{
    KnowledgeFormatAction, KnowledgeFormatLabels, ToolbarItem,
};
use oxideterm_workspace::workspace::labels::Piece;
use oxideterm_workspace::workspace::settings_events::{
    CliCompanionOperation, NoticeText, NoticeVariant, SettingsAction, SettingsEvent,
    SettingsResult, WorkspaceSettings,
};
use oxideterm_workspace::workspace::sftp_editor::{
    EditorStatus, FindMatches, PreviewBody, PreviewEditor, StatusTone,
};

fn texts(list: &[&str]) -> Vec<String> {
    list.iter().map(|text| text.to_string()).collect()
}

fn app() -> WorkspaceApp {
    WorkspaceApp::new(
        AiSettings {
            providers: vec![AiProviderView {
                id: "p1".to_string(),
                provider_type: "openai".to_string(),
                base_url: "https://one".to_string(),
                enabled: true,
                models: texts(&["m1"]),
            }],
            agent_concurrency: None,
            default_agent_concurrency: 4,
            max_agent_concurrency: 6,
        },
        WorkspaceSettings {
            background_blur: 3,
            background_image: None,
            theme: "default".to_string(),
            custom_themes: Table::new(),
            key_overrides: Table::new(),
        },
        AgentConversationOptions { enabled: true, default_model: None },
        true,
        "mono".to_string(),
    )
}

fn looked_up(action: &SettingsAction) -> (&str, NoticeVariant) {
    match action {
        SettingsAction::Toast { words: NoticeText::Lookup(label), variant }
        | SettingsAction::Notice { words: NoticeText::Lookup(label), variant } => {
            (label.key.as_str(), *variant)
        }
        _ => panic!("the user is told"),
    }
}

#[test]
fn settings_are_stored_where_they_changed() {
    let mut app = app();
    assert!(app
        .handle_settings_workspace_event(SettingsEvent::BackgroundBlurCommitted(3))
        .is_empty());
    let actions = app.handle_settings_workspace_event(SettingsEvent::BackgroundBlurCommitted(5));
    assert!(matches!(actions[..], [SettingsAction::StoreSettings]));
    assert_eq!(app.settings.background_blur, 5);
    let actions = app.handle_settings_workspace_event(SettingsEvent::ExternalStoresChanged);
    assert!(matches!(actions[..], [SettingsAction::ReloadStores]));
    let actions = app.handle_settings_workspace_event(SettingsEvent::DataDirectoryConfirmOpened);
    assert!(matches!(actions[..], [SettingsAction::ResetConfirmFocus, SettingsAction::Redraw]));
}

#[test]
fn results_are_taken_in_one_after_the_other() {
    let mut app = app();
    let actions = app.handle_settings_workspace_event(SettingsEvent::OperationsReady(vec![
        SettingsResult::GalleryUpdated(Some("/a.png".to_string())),
        SettingsResult::GalleryUpdated(Some("/a.png".to_string())),
        SettingsResult::ThemeImported {
            theme_id: "t1".to_string(),
            name: "Night".to_string(),
            value: JsonTree::Null,
        },
        SettingsResult::KeysExportFailed,
    ]));
    assert_eq!(app.settings.background_image.as_deref(), Some("/a.png"));
    assert_eq!(app.settings.theme, "t1");
    assert!(app.settings.custom_themes.contains(&"t1".to_string()));
    assert_eq!(actions.len(), 5);
    assert!(matches!(actions[0], SettingsAction::StoreSettings));
    assert!(matches!(actions[1], SettingsAction::StoreSettings));
    assert_eq!(
        looked_up(&actions[2]),
        ("settings_view.appearance.theme_import_success", NoticeVariant::Success)
    );
    assert_eq!(
        looked_up(&actions[3]),
        ("settings_view.keybindings.export_error", NoticeVariant::Error)
    );
    assert!(matches!(actions[4], SettingsAction::Redraw));
    let mut overrides = Table::new();
    overrides.insert("copy".to_string(), "ctrl-c".to_string());
    let actions =
        app.handle_settings_workspace_event(SettingsEvent::OperationsReady(vec![
            SettingsResult::KeysImported { overrides, window: 2 },
        ]));
    assert!(matches!(&actions[1], SettingsAction::Rebind { previous, window: 2 }
        if previous.keys().is_empty()));
    assert!(app.settings.key_overrides.contains(&"copy".to_string()));
}

#[test]
fn companions_and_passwords_are_reported() {
    let mut app = app();
    let finished = |operation, success, error: Option<&str>| SettingsEvent::CliCompanionFinished {
        operation,
        success,
        error: error.map(|text| text.to_string()),
    };
    assert!(app
        .handle_settings_workspace_event(finished(CliCompanionOperation::Refresh, true, None))
        .is_empty());
    let actions =
        app.handle_settings_workspace_event(finished(CliCompanionOperation::Migrate, true, None));
    assert_eq!(looked_up(&actions[0]), ("migration.cli_migrated", NoticeVariant::Success));
    let actions = app.handle_settings_workspace_event(finished(
        CliCompanionOperation::Install,
        false,
        Some("denied"),
    ));
    assert!(matches!(
        &actions[0],
        SettingsAction::Toast { words: NoticeText::Plain(words), variant: NoticeVariant::Error }
            if words == "denied"
    ));
    let actions = app.handle_settings_workspace_event(SettingsEvent::PortablePasswordChanged {
        success: true,
        error: None,
    });
    assert!(matches!(actions[1], SettingsAction::RefreshPortableSettings));
    assert_eq!(app.on_theme_saved(None).len(), 1);
    assert_eq!(app.on_theme_saved(Some("Night".to_string())).len(), 2);
}

#[test]
fn changes_are_given_up_only_when_asked() {
    let mut quit = HistoryQuit::new();
    assert_eq!(quit.request_app_quit(0), QuitStep::Leave);
    assert_eq!(quit.request_app_quit(2), QuitStep::StopAndSave);
    assert_eq!(quit.request_app_quit(2), QuitStep::Nothing);
    assert_eq!(quit.on_saved(Some(vec![true, false])), QuitStep::Ask);
    assert_eq!(quit.on_answer(QuitAnswer::Retry), QuitStep::RetryAndSave);
    assert_eq!(quit.on_saved(None), QuitStep::Ask);
    assert_eq!(quit.on_answer(QuitAnswer::Unanswered), QuitStep::Resume);
    assert_eq!(quit.phase, QuitPhase::Idle);
    assert_eq!(quit.request_app_quit(1), QuitStep::StopAndSave);
    assert_eq!(quit.on_saved(Some(vec![true])), QuitStep::Leave);
    let mut discards = HistoryQuit { phase: QuitPhase::Asking };
    assert_eq!(discards.on_answer(QuitAnswer::Discard), QuitStep::Leave);
    let mut cancels = HistoryQuit { phase: QuitPhase::Asking };
    assert_eq!(cancels.on_answer(QuitAnswer::Cancel), QuitStep::Resume);
}

#[test]
fn what_was_streaming_is_saved_before_leaving() {
    let mut app = app();
    let mut clock = RevisionClock { last: 0 };
    app.ai_entity.initialize_history();
    let generation = app.ai_entity.history.generation;
    let store =
        OpenedStore { heads: vec![], revision: 1, writer: Some(HistoryWriteState::Ready) };
    app.ai_entity.apply_delivery(
        Delivery::Initialized { generation, store: Ok(store) },
        &mut clock,
        0,
    );
    app.ai_entity.create_conversation("c".to_string(), None, 5, None, &mut clock);
    app.ai_entity.add_message(
        "c",
        AiChatMessage::plain("m".to_string(), AiChatRole::Assistant, "half".to_string(), 1),
        1,
        &mut clock,
    );
    app.stop_ai_for_quit(
        &vec![StoppedMessage {
            conversation_id: "c".to_string(),
            message_id: "m".to_string(),
            retained: true,
        }],
        &mut clock,
    );
    assert!(app.ai_entity.history.quitting);
    assert!(!app.ai_entity.history_ready());
    assert!(app.ai_entity.history_message_is_pending("c", "m"));
    app.ai_entity.history.effects.clear();
    app.save_for_quit(7);
    assert!(app.ai_entity.history.effects.iter().any(|e| matches!(e, HistoryEffect::Save)));
    assert_eq!(app.ai_entity.history.waiters.len(), 1);
    app.resume_after_quit();
    assert!(!app.ai_entity.history.quitting);
}

fn labels() -> KnowledgeFormatLabels {
    let name = |text: &str| text.to_string();
    KnowledgeFormatLabels {
        undo: name("Undo"),
        redo: name("Redo"),
        heading: name("Heading"),
        bold: name("Bold"),
        italic: name("Italic"),
        strike: name("Strike"),
        inline_code: name("Code"),
        quote: name("Quote"),
        bullet_list: name("Bullets"),
        ordered_list: name("Numbers"),
        task_list: name("Tasks"),
        code_block: name("Block"),
        link: name("Link"),
        image: name("Image"),
        table: name("Table"),
        horizontal_rule: name("Rule"),
        inline_math: name("Math"),
        display_math: name("Formula"),
    }
}

fn editor(mode: KnowledgeEditorMode) -> KnowledgeDocumentEditor<u32, u32> {
    KnowledgeDocumentEditor {
        is_markdown: true,
        mode,
        previous_mode: mode,
        source_ratio: 50,
        read_only: false,
        preview_leads: false,
        observed_buffer_version: 3,
        preview_version: None,
        pending_preview_anchor: None,
        preview_running: false,
        preview_timer_running: false,
        split_dragging: false,
        labels: labels(),
    }
}

fn anchor(version: u64) -> SourceAnchor<u32> {
    SourceAnchor { version, position: 10, viewport_y: 2, at_start: false, at_end: false }
}

#[test]
fn previews_that_are_out_of_date_are_not_shown() {
    let mut editor = editor(KnowledgeEditorMode::Source);
    let preferences =
        KnowledgeEditorUiState { mode: KnowledgeEditorMode::Split, source_ratio: 40 };
    assert_eq!(editor.initialize_preview(preferences), Some(3));
    assert_eq!(editor.source_ratio, 40);
    assert_eq!(editor.load_preview(), None);
    editor.observed_buffer_version = 4;
    assert!(matches!(editor.on_preview_loaded(3), PreviewStep::Load(4)));
    assert!(editor.preview_version.is_none());
    editor.schedule_preview();
    editor.observed_buffer_version = 5;
    assert!(matches!(editor.on_preview_loaded(4), PreviewStep::Nothing));
    assert_eq!(editor.on_preview_timer(), Some(5));
    assert!(matches!(editor.on_preview_loaded(5), PreviewStep::SyncFromEditor));
    assert_eq!(editor.preview_version, Some(5));
    editor.mode = KnowledgeEditorMode::Preview;
    editor.sync_from_editor(anchor(5));
    assert!(matches!(
        editor.on_preview_loaded(5),
        PreviewStep::Request(anchor) if anchor.position == 10
    ));
    assert!(matches!(editor.on_preview_loaded(5), PreviewStep::Show));
}

#[test]
fn one_side_of_a_split_leads() {
    let mut editor = editor(KnowledgeEditorMode::Split);
    assert!(!editor.on_preview_scrolled(2));
    assert!(editor.on_preview_scrolled(3));
    assert!(!editor.on_viewport_changed(EditorScrollOrigin::Other));
    assert!(!editor.on_viewport_changed(EditorScrollOrigin::Synchronization));
    assert!(editor.on_viewport_changed(EditorScrollOrigin::User));
    assert!(!editor.preview_leads);
    editor.begin_remap(Some(anchor(3)));
    editor.remap_preview_anchor(3, 4, 12);
    editor.remap_preview_anchor(3, 5, 99);
    let moved = editor.pending_preview_anchor.as_ref().unwrap();
    assert_eq!((moved.version, moved.position), (4, 12));
    assert!(editor.finish_split_resize().is_none());
    editor.split_dragging = true;
    assert_eq!(editor.finish_split_resize().unwrap().source_ratio, 50);
    editor.is_markdown = false;
    assert!(editor.emit_preferences().is_none());
}

#[test]
fn the_toolbar_is_grouped() {
    let items = editor(KnowledgeEditorMode::Source).render_source_toolbar();
    let groups = items.split(|item| matches!(item, ToolbarItem::Separator)).count();
    assert_eq!(groups, 6);
    match &items[0] {
        ToolbarItem::Button { id, label, action, .. } => {
            assert_eq!(id, "knowledge-format-undo");
            assert_eq!(label, "Undo");
            assert_eq!(*action, KnowledgeFormatAction::Undo);
        }
        ToolbarItem::Separator => panic!("the toolbar starts with a button"),
    }
}

#[test]
fn previews_say_what_they_lack() {
    let mut app = app();
    let words = |app: &WorkspaceApp| match app.render_sftp_preview_body().body {
        PreviewBody::Text(text) => match text.text {
            Piece::Translated(key) => key,
            Piece::Plain(words) => words,
        },
        PreviewBody::Content => "content".to_string(),
    };
    assert_eq!(words(&app), "");
    app.sftp_preview.has_content = true;
    assert_eq!(words(&app), "content");
    app.sftp_preview.error = Some("gone".to_string());
    assert_eq!(words(&app), "gone");
    app.sftp_preview.loading = true;
    assert_eq!(words(&app), "sftp.preview.loading");
}

#[test]
fn the_editor_says_how_saving_went() {
    let mut app = app();
    app.sftp_preview.dirty = true;
    assert!(matches!(
        app.sftp_preview.render_sftp_editor_status(),
        EditorStatus::Text { tone: StatusTone::Yellow, .. }
    ));
    app.sftp_preview.save_error = Some("lost".to_string());
    assert!(matches!(
        app.sftp_preview.render_sftp_editor_status(),
        EditorStatus::Text { tone: StatusTone::Red, .. }
    ));
    app.sftp_preview.network_error = true;
    app.sftp_preview.retry_count = 2;
    match app.sftp_preview.render_sftp_editor_status() {
        EditorStatus::Retry { message, label } => {
            assert_eq!(message, "lost");
            assert!(matches!(&label[1], Piece::Plain(words) if words == " (2)"));
        }
        _ => panic!("the user can try again"),
    }
    app.sftp_preview.find_open = true;
    app.sftp_preview.find_query = "x".to_string();
    app.sftp_preview.editor = Some(PreviewEditor {
        caret: Some((0, 4)),
        matches: FindMatches { total: 12, current: Some(3) },
    });
    let pane = app.render_sftp_editor_body();
    assert!(pane.shows_editor);
    assert_eq!(pane.language, "text");
    assert_eq!(pane.find_bar.unwrap().match_label, "3/12");
    app.sftp_preview.editor = Some(PreviewEditor {
        caret: None,
        matches: FindMatches { total: 1_000, current: None },
    });
    assert_eq!(app.sftp_preview.render_sftp_preview_find_bar().match_label, "999+");
}

#[test]
fn the_number_of_agents_is_one_of_those_offered() {
    let mut app = app();
    let choices = app.render_ai_agent_concurrency_setting();
    assert_eq!(choices.len(), 6);
    assert!(choices[3].selected);
    app.choose_agent_concurrency(40);
    assert_eq!(app.agent_concurrency(), 6);
    app.choose_agent_concurrency(0);
    assert_eq!(app.agent_concurrency(), 1);
    assert_eq!(app.render_agent_model_picker(false).len(), 2);
    assert_eq!(app.render_agent_model_picker(true)[0].id, "agent-model-p1-m1");
    let model = AgentModel { provider_id: "p1".to_string(), model: "m1".to_string() };
    assert_eq!(write_model(&model), "p1 / m1");
    assert!(app.render_ai_agent_settings().is_none());
}

fn run(agent: &str) -> AgentRunRef {
    AgentRunRef {
        group_id: "g".to_string(),
        agent_id: agent.to_string(),
        run_id: format!("run-{agent}"),
    }
}

fn snapshot(agent: &str) -> AgentSnapshot {
    AgentSnapshot {
        run: run(agent),
        parent_id: Some("parent".to_string()),
        conversation_id: "c".to_string(),
        state: AgentState::Running,
        usage: AgentUsage { input_tokens: None, output_tokens: None },
        progress: "half way".to_string(),
        model: AgentModel { provider_id: "p1".to_string(), model: "m1".to_string() },
        title: "Look".to_string(),
        task: "look around".to_string(),
        result_summary: None,
        resources: Vec::new(),
    }
}

fn child(agent: &str) -> ChildRun {
    ChildRun {
        snapshot: snapshot(agent),
        scope_tools: texts(&["read_resource"]),
        scope_targets: vec![],
        context: Vec::new(),
        message_branch: "main".to_string(),
    }
}

#[test]
fn children_start_within_their_scope() {
    let mut app = app();
    let mut clock = RevisionClock { last: 0 };
    let refused = app
        .launch_ai_child(child("a"), texts(&["Server"]), None, 5, 1, &mut clock)
        .err()
        .unwrap();
    assert_eq!(refused.error, "Parent task has finished");
    assert_eq!(refused.error_code, "agent_launch_failed");
    let config = GroupConfig {
        provider_id: None,
        model: "m1".to_string(),
        tools: texts(&["read_resource", "run_command"]),
        disabled_tools: texts(&["run_command"]),
        tools_enabled: true,
        max_rounds: Some(500),
    };
    let limits = RoundLimits { default_rounds: 20, min_rounds: 1, max_rounds: 100 };
    let plan = app.plan_ai_agent_group("c", &config, limits);
    assert_eq!(plan.concurrency, 4);
    assert_eq!(plan.scope_tools, texts(&["read_resource"]));
    assert!(plan.offers_agents);
    assert_eq!(plan.max_rounds, 100);
    app.start_ai_agent_group(
        1,
        &run("parent"),
        "assistant",
        texts(&["read_resource", "run_command"]),
        1_000,
    );
    let prepared = app
        .launch_ai_child(child("a"), texts(&["Server"]), None, 5, 1, &mut clock)
        .ok()
        .unwrap();
    assert_eq!(prepared.tools, texts(&["read_resource"]));
    assert_eq!(prepared.context_window, 1_000);
    assert_eq!(prepared.assistant_id.len(), 36);
    assert!(app.ai_entity.is_child_stream(prepared.generation));
    assert!(app.ai_entity.is_agent_message(&prepared.assistant_id));
    assert!(app.render_ai_agent_group("assistant").unwrap().rows.is_empty());
    app.toggle_agent_group("g".to_string(), &"assistant".to_string(), false);
    let group = app.render_ai_agent_group("assistant").unwrap();
    assert_eq!(group.rows.len(), 1);
    assert_eq!(group.rows[0].title, "Look");
    let notice = app.notify_ai_agent_attention("c", &prepared.assistant_id, "waits").unwrap();
    assert_eq!(notice.detail, " · Look · Server");
    app.ai_entity.open_agent_detail("run-a".to_string(), 1, 2);
    let detail = app.render_ai_agent_detail(true, &vec![]).unwrap();
    assert_eq!(detail.title, "Look");
    assert!(detail.stored.is_empty());
    assert_eq!(app.abandon_ai_child(&run("a")), vec![prepared.generation]);
    assert!(!app.ai_entity.is_child_stream(prepared.generation));
}

#[test]
fn models_of_new_agents_are_chosen_for_the_conversation() {
    let mut app = app();
    let mut clock = RevisionClock { last: 0 };
    app.ai_entity.create_conversation("c".to_string(), None, 5, None, &mut clock);
    app.ai_entity.conversation_state.active_conversation_id = Some("c".to_string());
    let model = AgentModel { provider_id: "p1".to_string(), model: "m1".to_string() };
    assert!(app.select_agent_model(None, Some(model), false));
    let shown = app.render_ai_agent_settings().unwrap();
    assert_eq!(shown.model.as_deref(), Some("p1 / m1"));
    assert!(shown.enabled);
    app.toggle_conversation_agents("c");
    assert!(!app.render_ai_agent_settings().unwrap().enabled);
    let other = AgentModel { provider_id: "p1".to_string(), model: "m1".to_string() };
    assert!(!app.select_agent_model(Some("run-x".to_string()), Some(other), true));
}

#[test]
fn records_of_agents_are_kept_with_their_conversation() {
    let mut app = app();
    let mut clock = RevisionClock { last: 0 };
    let record = AgentRecord {
        snapshot: snapshot("a"),
        parent_usage: AgentUsage { input_tokens: Some(1), output_tokens: None },
        created_at_ms: 4,
        parent_message_id: "assistant".to_string(),
        target_labels: texts(&["Server"]),
        messages: vec![AiChatMessage::plain(
            "m".to_string(),
            AiChatRole::Assistant,
            "hello".to_string(),
            4,
        )],
        communication: Vec::new(),
        revision: 1,
        message_branch: "main".to_string(),
    };
    app.ai_entity.add_agent_record(record, &mut clock);
    assert!(app.ai_entity.agents.records.contains(&"run-a".to_string()));
    let group = app.render_ai_agent_group("assistant").unwrap();
    assert_eq!((group.done, group.running, group.total), (0, 1, 1));
    app.toggle_agent_group("g".to_string(), &"assistant".to_string(), true);
    assert!(app.render_ai_agent_group("other").is_none());
}

#[test]
fn runs_are_compacted_where_the_user_asks() {
    let mut app = app();
    let mut clock = RevisionClock { last: 0 };
    let config = || {
        Ok(SummaryConfig {
            provider_type: "openai".to_string(),
            provider_id: None,
            requires_key: false,
            context_window: 1_000,
        })
    };
    assert!(app.start_ai_compact_conversation::<()>(config(), 1).is_none());
    assert!(app.start_ai_summarize_conversation::<()>(config(), 1).is_none());
    app.ai_entity.initialize_history();
    let generation = app.ai_entity.history.generation;
    let store =
        OpenedStore { heads: vec![], revision: 1, writer: Some(HistoryWriteState::Ready) };
    app.ai_entity.apply_delivery(
        Delivery::Initialized { generation, store: Ok(store) },
        &mut clock,
        0,
    );
    app.ai_entity.create_conversation("c".to_string(), None, 5, None, &mut clock);
    app.ai_entity.conversation_state.active_conversation_id = Some("c".to_string());
    let load = app.start_ai_compact_conversation::<()>(config(), 1).unwrap().ok().unwrap();
    assert_eq!(load.request.conversation_id, "c");
    assert!(!load.request.summary);
    assert!(app.ai_entity.history.compaction_loads.contains(&"c".to_string()));
    assert!(app.start_ai_compact_conversation::<()>(config(), 2).unwrap().is_err());
}

#[test]
fn disclosures_move_where_motion_is_wanted() {
    let mut app = app();
    let timer = app.toggle_ai_thinking_with_motion("m-thinking-1".to_string(), false).unwrap();
    assert_eq!(timer.key, "ai:m-thinking-1:thinking");
    assert!(app.toggle_ai_tool_with_motion("m-tools-0".to_string()).is_some());
    app.disclosures.motion_enabled = false;
    assert!(app.toggle_ai_tool_with_motion("m-tools-0".to_string()).is_none());
}

#[test]
fn the_usage_of_a_group_is_given_in_parts() {
    let usage = |input, output| AgentUsage { input_tokens: input, output_tokens: output };
    let line = group_usage_label(
        usage(Some(10), Some(2)),
        usage(Some(5), None),
        usage(Some(15), Some(3)),
    );
    assert_eq!(line.key, "ai.agents.group_usage");
    assert_eq!(line.parent.key, "ai.agents.usage");
    assert_eq!(line.parent.values[0], ("input".to_string(), "10".to_string()));
    assert_eq!(line.parent.values[1], ("output".to_string(), "2".to_string()));
    assert_eq!(line.children.key, "ai.agents.usage_unknown");
    assert!(line.children.values.is_empty());
    assert_eq!(line.total.values[0].1, "15");
}
