use oxideterm_workspace::workspace::runtime_context::AiRuntimeContextEntity;
use oxideterm_workspace::workspace::runtime_owners::{
    AiRunCommandOwner, RuntimeCapability, RuntimeContextError, RuntimeOwnerKind,
    RuntimeValidationFailure,
};

#[test]
fn tool_sessions_are_isolated_and_same_run_replacement_revokes_old_authority() {
    let mut entity = AiRuntimeContextEntity::new();
    let first = entity.begin_tool_session(7);
    let second = entity.begin_tool_session(8);

    assert!(entity.is_active_tool_session(7, first));
    assert!(entity.is_active_tool_session(8, second));
    let replacement = entity.begin_tool_session(7);
    assert!(!entity.is_active_tool_session(7, first));
    assert!(entity.is_active_tool_session(7, replacement));
    assert!(entity.is_active_tool_session(8, second));
    entity.finish_tool_session(7);
    assert!(!entity.is_active_tool_session(7, replacement));
    assert!(entity.is_active_tool_session(8, second));
}

#[test]
fn cancelled_stream_cannot_dispatch_queued_work() {
    let mut entity = AiRuntimeContextEntity::new();
    let session = entity.begin_tool_session(7);

    entity.finish_tool_session(7);

    assert!(!entity.is_active_tool_session(7, session));
}

#[test]
fn shutdown_rejects_late_broker_callbacks() {
    let mut entity = AiRuntimeContextEntity::new();
    let session = entity.begin_tool_session(7);
    entity.register_terminal_session(42, "Terminal".to_string());

    entity.shutdown();
    entity.shutdown();

    assert!(!entity.is_active_tool_session(7, session));
    assert!(entity.names.keys().is_empty());
    assert!(entity.records.keys().is_empty());
    assert!(entity.terminal_resource_key(42).is_none());
}

#[test]
fn closed_terminal_handle_cannot_be_validated() {
    let mut entity = AiRuntimeContextEntity::new();
    let session_id = 42;
    entity.register_terminal_session(session_id, "Terminal".to_string());
    let tool_session_id = entity.begin_tool_session(7);
    let handle = entity.issue_terminal_handle(tool_session_id, session_id).ok().unwrap();

    entity.revoke_terminal_session(session_id);

    let error = entity
        .validate_terminal_handle(
            tool_session_id,
            Some(handle.handle_id.as_str()),
            RuntimeCapability::TerminalObserve,
        )
        .expect_err("closed terminal does not retain authority");
    assert_eq!(error.public_code(), "runtime_owner_closed");
}

#[test]
fn delegated_discovery_cannot_issue_or_reuse_another_targets_handle() {
    let mut entity = AiRuntimeContextEntity::new();
    let first = 41;
    let second = 42;
    entity.register_terminal_session(first, "First".into());
    entity.register_terminal_session(second, "Second".into());
    let parent = entity.begin_tool_session(1);
    let outside = entity.issue_terminal_handle(parent, second).ok().unwrap();
    let child = entity.begin_tool_session(2);
    let stale = entity.issue_terminal_handle(child, second).ok().unwrap();
    let mut targets = vec![entity.terminal_resource_key(first).unwrap()];
    entity.restrict_agent_session(child, &targets).unwrap();
    assert!(entity.issue_terminal_handle(child, first).is_ok());
    assert!(entity.issue_terminal_handle(child, second).is_err());
    for handle in [outside, stale] {
        assert!(entity
            .validate_terminal_handle(
                child,
                Some(handle.handle_id.as_str()),
                RuntimeCapability::TerminalObserve
            )
            .is_err());
    }
    targets.push(entity.terminal_resource_key(second).unwrap());
    entity.restrict_agent_session(child, &targets).unwrap();
    assert!(!entity.agent_can_observe_terminal(child, second));
    assert!(entity.is_active_tool_session(1, parent));
}

#[test]
fn detaching_terminal_preserves_session_owner() {
    let mut entity = AiRuntimeContextEntity::new();
    let session_id = 42;
    entity.register_terminal_session(session_id, "Terminal".to_string());
    let tool_session_id = entity.begin_tool_session(7);
    let handle = entity.issue_terminal_handle(tool_session_id, session_id).ok().unwrap();

    entity.register_terminal_session(session_id, "Detached terminal".to_string());

    assert!(entity
        .validate_terminal_handle(
            tool_session_id,
            Some(handle.handle_id.as_str()),
            RuntimeCapability::TerminalObserve,
        )
        .is_ok());
}

#[test]
fn closing_terminal_does_not_revoke_shared_node() {
    let mut entity = AiRuntimeContextEntity::new();
    let session_id = 42;
    entity.register_node_connection(
        "node-a".to_string(),
        "connection-a".to_string(),
        "Node".to_string(),
        None,
    );
    entity.register_terminal_session(session_id, "Terminal".to_string());
    let tool_session_id = entity.begin_tool_session(7);
    let node_handle = entity.issue_node_handle(tool_session_id, "node-a").ok().unwrap();

    entity.revoke_terminal_session(session_id);

    assert_eq!(
        entity.validate_node_handle(tool_session_id, Some(node_handle.handle_id.as_str())),
        Ok("node-a".to_string()),
        "terminal teardown must not revoke the shared SSH node"
    );
}

#[test]
fn sftp_replacement_revokes_only_the_previous_sftp_generation() {
    let mut entity = AiRuntimeContextEntity::new();
    let terminal_session_id = 42;
    entity.register_terminal_session(terminal_session_id, "Terminal".to_string());
    entity.register_sftp_session(
        "node-a".to_string(),
        "connection-a".to_string(),
        7,
        "SFTP owner".to_string(),
        None,
    );
    let tool_session_id = entity.begin_tool_session(7);
    let terminal_handle =
        entity.issue_terminal_handle(tool_session_id, terminal_session_id).ok().unwrap();
    let old_sftp_handle = entity.issue_sftp_handle(tool_session_id, "node-a").ok().unwrap();

    entity.register_sftp_session(
        "node-a".to_string(),
        "connection-a".to_string(),
        8,
        "SFTP owner".to_string(),
        None,
    );

    let error = entity
        .validate_sftp_handle(
            tool_session_id,
            Some(old_sftp_handle.handle_id.as_str()),
            RuntimeCapability::SftpRead,
        )
        .err()
        .expect("the prior concrete channel generation must be stale");
    assert_eq!(error.public_code(), "runtime_owner_replaced");
    assert!(
        entity
            .validate_terminal_handle(
                tool_session_id,
                Some(terminal_handle.handle_id.as_str()),
                RuntimeCapability::TerminalObserve,
            )
            .is_ok(),
        "replacing SFTP must not revoke an unrelated terminal owner"
    );
}

#[test]
fn node_disconnect_revokes_sftp_and_ide_but_not_terminal_handles() {
    let mut entity = AiRuntimeContextEntity::new();
    let terminal_session_id = 42;
    let ide_tab_id = 13;
    entity.register_node_connection(
        "node-a".to_string(),
        "connection-a".to_string(),
        "Node".to_string(),
        None,
    );
    entity.register_terminal_session(terminal_session_id, "Terminal".to_string());
    entity.register_sftp_session(
        "node-a".to_string(),
        "connection-a".to_string(),
        7,
        "SFTP owner".to_string(),
        None,
    );
    entity.register_ide_surface(ide_tab_id, "node-a".to_string(), "IDE owner".to_string(), None);
    let tool_session_id = entity.begin_tool_session(7);
    let terminal_handle =
        entity.issue_terminal_handle(tool_session_id, terminal_session_id).ok().unwrap();
    let node_handle = entity.issue_node_handle(tool_session_id, "node-a").ok().unwrap();
    let sftp_handle = entity.issue_sftp_handle(tool_session_id, "node-a").ok().unwrap();
    let ide_handle = entity.issue_ide_handle(tool_session_id, ide_tab_id).ok().unwrap();

    entity.revoke_node_connection("node-a");

    assert!(entity
        .validate_node_handle(tool_session_id, Some(node_handle.handle_id.as_str()))
        .is_err());
    assert!(entity
        .validate_sftp_handle(
            tool_session_id,
            Some(sftp_handle.handle_id.as_str()),
            RuntimeCapability::SftpRead,
        )
        .is_err());
    assert!(entity
        .validate_ide_handle(
            tool_session_id,
            Some(ide_handle.handle_id.as_str()),
            RuntimeCapability::IdeRead,
        )
        .is_err());
    assert!(
        entity
            .validate_terminal_handle(
                tool_session_id,
                Some(terminal_handle.handle_id.as_str()),
                RuntimeCapability::TerminalObserve,
            )
            .is_ok(),
        "node teardown must not revoke the independently owned terminal session"
    );
}

#[test]
fn node_metadata_refresh_preserves_the_connection_generation() {
    let mut entity = AiRuntimeContextEntity::new();
    entity.register_node_connection(
        "node-a".to_string(),
        "connection-a".to_string(),
        "Initial label".to_string(),
        None,
    );
    let tool_session_id = entity.begin_tool_session(7);
    let handle = entity.issue_node_handle(tool_session_id, "node-a").ok().unwrap();

    entity.register_node_connection(
        "node-a".to_string(),
        "connection-a".to_string(),
        "Updated label".to_string(),
        None,
    );

    assert!(entity.validate_node_handle(tool_session_id, Some(handle.handle_id.as_str())).is_ok());
    let shown =
        entity.validate_state_handle(tool_session_id, Some(handle.handle_id.as_str())).ok().unwrap();
    assert_eq!(shown.label, "Updated label");
    assert_eq!(shown.kind, RuntimeOwnerKind::SshNode);
}

#[test]
fn closing_one_ide_surface_does_not_select_another_surface() {
    let mut entity = AiRuntimeContextEntity::new();
    let first_tab = 11;
    let second_tab = 12;
    entity.register_ide_surface(first_tab, "node-a".to_string(), "First IDE".to_string(), None);
    entity.register_ide_surface(second_tab, "node-a".to_string(), "Second IDE".to_string(), None);
    let tool_session_id = entity.begin_tool_session(7);
    let first_handle = entity.issue_ide_handle(tool_session_id, first_tab).ok().unwrap();
    let second_handle = entity.issue_ide_handle(tool_session_id, second_tab).ok().unwrap();

    entity.revoke_ide_surface(first_tab);

    assert!(
        entity
            .validate_ide_handle(
                tool_session_id,
                Some(first_handle.handle_id.as_str()),
                RuntimeCapability::IdeRead,
            )
            .is_err(),
        "a closed surface must not rebind to another surface on the same node"
    );
    assert_eq!(
        entity
            .validate_ide_handle(
                tool_session_id,
                Some(second_handle.handle_id.as_str()),
                RuntimeCapability::IdeRead,
            )
            .expect("the second surface remains valid")
            .0,
        second_tab
    );
}

#[test]
fn closed_app_surface_handle_cannot_focus_another_tab() {
    let mut entity = AiRuntimeContextEntity::new();
    let first_tab = 21;
    let second_tab = 22;
    entity.register_app_surface(first_tab, "First settings".to_string(), None);
    entity.register_app_surface(second_tab, "Second settings".to_string(), None);
    let tool_session_id = entity.begin_tool_session(9);
    let first_handle = entity.issue_app_surface_handle(tool_session_id, first_tab).ok().unwrap();

    entity.revoke_app_surface(first_tab);

    let error = entity
        .validate_app_surface_handle(tool_session_id, Some(first_handle.handle_id.as_str()))
        .expect_err("closed surface cannot rebind to another tab");
    assert_eq!(error.public_code(), "runtime_owner_closed");
    let second_handle = entity.issue_app_surface_handle(tool_session_id, second_tab).ok().unwrap();
    assert_eq!(
        entity
            .validate_app_surface_handle(tool_session_id, Some(second_handle.handle_id.as_str()))
            .expect("remaining surface stays valid"),
        second_tab
    );
}

#[test]
fn a_reopened_tab_gets_another_owner() {
    let mut entity = AiRuntimeContextEntity::new();
    entity.register_app_surface(21, "Settings".to_string(), None);
    let session = entity.begin_tool_session(1);
    let handle = entity.issue_app_surface_handle(session, 21).ok().unwrap();
    entity.revoke_app_surface(21);
    entity.register_app_surface(21, "Settings".to_string(), None);
    assert_eq!(
        entity.validate_app_surface_handle(session, Some(handle.handle_id.as_str())),
        Err(RuntimeValidationFailure::OwnerClosed)
    );
}

#[test]
fn every_refusal_of_a_handle_is_told_apart() {
    let mut entity = AiRuntimeContextEntity::new();
    entity.register_terminal_session(1, "Terminal".to_string());
    let session = entity.begin_tool_session(1);
    let other = entity.begin_tool_session(2);
    let handle = entity.issue_terminal_handle(session, 1).ok().unwrap().handle_id;
    let observe = RuntimeCapability::TerminalObserve;
    assert_eq!(
        entity.validate_terminal_handle(session, None, observe),
        Err(RuntimeValidationFailure::MissingHandle)
    );
    assert_eq!(
        entity.validate_terminal_handle(session, Some("runtime-0"), observe),
        Err(RuntimeValidationFailure::UnknownHandle)
    );
    assert_eq!(
        entity.validate_terminal_handle(other, Some(handle.as_str()), observe),
        Err(RuntimeValidationFailure::UnknownHandle)
    );
    assert_eq!(
        entity.validate_terminal_handle(99, Some(handle.as_str()), observe),
        Err(RuntimeValidationFailure::SessionEnded)
    );
    for raw in ["", "runtime-", "runtime-1x", "handle-1", "Runtime-1"] {
        assert_eq!(
            entity.validate_terminal_handle(99, Some(raw), observe),
            Err(RuntimeValidationFailure::UnknownHandle)
        );
    }
    assert_eq!(
        entity.validate_terminal_handle(99, Some("runtime-0"), observe),
        Err(RuntimeValidationFailure::SessionEnded)
    );
    assert_eq!(
        entity.validate_state_handle(99, Some("terminal")).err(),
        Some(RuntimeValidationFailure::UnknownHandle)
    );
    assert_eq!(
        entity.delegated_agent_target(99, "terminal").err(),
        Some(RuntimeValidationFailure::UnknownHandle)
    );
    assert_eq!(
        entity.validate_terminal_handle(session, Some(handle.as_str()), RuntimeCapability::IdeRead),
        Err(RuntimeValidationFailure::CapabilityUnavailable)
    );
    entity.restrict_agent_session(session, &vec![]).unwrap();
    assert!(entity.is_agent_scoped_session(session));
    assert!(!entity.is_agent_scoped_session(other));
    assert_eq!(
        entity.validate_terminal_handle(session, Some(handle.as_str()), observe),
        Err(RuntimeValidationFailure::NotPermitted)
    );
    assert_eq!(
        entity.issue_terminal_handle(session, 1).err(),
        Some(RuntimeContextError::NotPermitted)
    );
    assert_eq!(
        entity.issue_terminal_handle(other, 7).err(),
        Some(RuntimeContextError::OwnerNotFound)
    );
    assert_eq!(
        entity.issue_terminal_handle(99, 1).err(),
        Some(RuntimeContextError::SessionNotFound)
    );
    assert_eq!(
        entity.restrict_agent_session(99, &vec![]),
        Err(RuntimeContextError::SessionNotFound)
    );
}

#[test]
fn commands_run_where_the_handle_says() {
    let mut entity = AiRuntimeContextEntity::new();
    entity.register_terminal_session(5, "Terminal".to_string());
    entity.register_app_surface(6, "Tab".to_string(), None);
    let session = entity.begin_tool_session(1);
    let terminal = entity.issue_terminal_handle(session, 5).ok().unwrap().handle_id;
    let shell = entity.issue_local_shell_handle(session).ok().unwrap();
    assert_eq!(shell.label, "Local shell service");
    let tab = entity.issue_app_surface_handle(session, 6).ok().unwrap().handle_id;
    assert_eq!(
        entity.validate_run_command_handle(session, Some(terminal.as_str())),
        Ok(AiRunCommandOwner::Terminal(5))
    );
    assert_eq!(
        entity.validate_run_command_handle(session, Some(shell.handle_id.as_str())),
        Ok(AiRunCommandOwner::LocalShell)
    );
    assert_eq!(
        entity.validate_run_command_handle(session, Some(tab.as_str())),
        Err(RuntimeValidationFailure::CapabilityUnavailable)
    );
    assert_eq!(entity.current_handle_projections(session).len(), 3);
    entity.revoke_terminal_session(5);
    assert_eq!(entity.current_handle_projections(session).len(), 2);
}

#[test]
fn a_delegated_handle_names_its_owner() {
    let mut entity = AiRuntimeContextEntity::new();
    entity.register_terminal_session(5, "Terminal".to_string());
    let session = entity.begin_tool_session(1);
    let handle = entity.issue_terminal_handle(session, 5).ok().unwrap().handle_id;
    let key = entity.terminal_resource_key(5).unwrap();
    assert_eq!(
        entity.delegated_agent_target(session, handle.as_str()),
        Ok((key, "Terminal".to_string()))
    );
    assert_eq!(
        entity.delegated_agent_target(session, "nothing"),
        Err(RuntimeValidationFailure::UnknownHandle)
    );
}

#[test]
fn nothing_begins_after_a_shutdown() {
    let mut entity = AiRuntimeContextEntity::new();
    entity.register_terminal_session(42, "Terminal".to_string());
    let before = entity.begin_tool_session(7);
    let handle = entity.issue_terminal_handle(before, 42).ok().unwrap();
    entity.shutdown();
    let late = entity.begin_tool_session(8);
    for session in [before, late] {
        assert!(!entity.is_active_tool_session(7, session));
        assert!(!entity.is_active_tool_session(8, session));
        assert!(entity
            .validate_terminal_handle(
                session,
                Some(handle.handle_id.as_str()),
                RuntimeCapability::TerminalObserve
            )
            .is_err());
    }
    entity.shutdown();
    assert!(!entity.is_active_tool_session(8, late));
    assert!(entity.names.keys().is_empty());
}

#[test]
fn another_connection_ends_the_handles_to_its_node() {
    let mut entity = AiRuntimeContextEntity::new();
    let mut announce = |entity: &mut AiRuntimeContextEntity, node: &str, connection: &str| {
        entity.register_node_connection(
            node.to_string(),
            connection.to_string(),
            "Label".to_string(),
            Some("ref".to_string()),
        );
    };
    announce(&mut entity, "node-a", "connection-a");
    announce(&mut entity, "node-b", "connection-b");
    entity.register_terminal_session(42, "Terminal".to_string());
    let session = entity.begin_tool_session(7);
    let first = entity.issue_node_handle(session, "node-a").ok().unwrap();
    let second = entity.issue_node_handle(session, "node-b").ok().unwrap();
    let terminal = entity.issue_terminal_handle(session, 42).ok().unwrap();
    announce(&mut entity, "node-a", "connection-c");
    let error = entity
        .validate_node_handle(session, Some(first.handle_id.as_str()))
        .expect_err("the connection is another");
    assert_eq!(error.public_code(), "runtime_owner_replaced");
    assert!(entity.validate_node_handle(session, Some(second.handle_id.as_str())).is_ok());
    assert!(entity
        .validate_terminal_handle(
            session,
            Some(terminal.handle_id.as_str()),
            RuntimeCapability::TerminalObserve
        )
        .is_ok());
}
