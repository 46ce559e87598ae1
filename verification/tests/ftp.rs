use oxideterm_workspace::ai_state::model::AgentConversationOptions;
use oxideterm_workspace::table::Table;
use oxideterm_workspace::workspace::app::{AiSettings, WorkspaceApp};
use oxideterm_workspace::workspace::connection_form::{
    FormError, NewConnectionForm, NewConnectionTransport, NewConnectionUpstreamProxyPolicy,
};
use oxideterm_workspace::workspace::ftp_files::{
    DecodedText, FtpEntry, FtpEntryKind, FtpReadError, FtpRuntime, FtpSaveError, PreviewContent,
    RemoteTransferProtocol, SftpFileType, SftpRemoteId,
};
use oxideterm_workspace::workspace::ftp_form::{
    attempt_result, show_ftp_profile, start_ftp_submission, ConnectionFormState, FormRow,
    FtpFormField, FtpFormSwitch, FtpOutcome, FtpProfile, FtpSecurity, FtpStep,
    NewConnectionSubmitAction,
};
use oxideterm_workspace::workspace::ftp_transfers::{
    end_transfer, is_due, pause, BackgroundTransferKind, BackgroundTransferState,
    FtpTransferCommand, FtpTransferError, FtpTransferFailure, LocalDownloadDisposition, RemoteTransferStrategy,
    SftpTransferDirection, TransferProgress,
};
use oxideterm_workspace::workspace::labels::Piece;
use oxideterm_workspace::workspace::saved_connections::SavedUpstreamProxyPolicy;
use oxideterm_workspace::workspace::settings_events::WorkspaceSettings;

fn profile(keychain: Option<&str>) -> FtpProfile {
    FtpProfile {
        id: "p1".to_string(),
        name: "Old".to_string(),
        host: "old.example.com".to_string(),
        port: 21,
        username: "old".to_string(),
        security: FtpSecurity::Plain,
        connect_timeout_seconds: 30,
        group: Some("Work".to_string()),
        notes: None,
        initial_path: "/srv".to_string(),
        icon: None,
        color: Some("#112233".to_string()),
        icon_background_color: None,
        upstream_proxy: SavedUpstreamProxyPolicy::UseGlobal,
        password_keychain_id: keychain.map(|id| id.to_string()),
    }
}

fn form() -> NewConnectionForm {
    let mut form = NewConnectionForm::default();
    form.transport = NewConnectionTransport::Ftp;
    form.name = "Files".to_string();
    form.host = " ftp.example.com ".to_string();
    form.port = "2121".to_string();
    form.username = " me ".to_string();
    form.group = "Ungrouped".to_string();
    form.ftp_tls = true;
    form.password = "secret".to_string();
    form
}

fn app() -> WorkspaceApp {
    WorkspaceApp::new(
        AiSettings {
            providers: Vec::new(),
            agent_concurrency: None,
            default_agent_concurrency: 4,
            max_agent_concurrency: 16,
        },
        WorkspaceSettings {
            background_blur: 0,
            background_image: None,
            theme: "default".to_string(),
            custom_themes: Table::new(),
            key_overrides: Table::new(),
        },
        AgentConversationOptions { enabled: true, default_model: None },
        true,
        "mono".to_string(),
    )
}

fn key_of(form: &NewConnectionForm) -> &'static str {
    match &form.error {
        Some(FormError::Key(key)) => key,
        _ => panic!("the form says why"),
    }
}

#[test]
fn a_form_is_saved_and_connected() {
    let mut form = form();
    let mut submission = start_ftp_submission(
        &mut form,
        NewConnectionSubmitAction::SaveAndConnect,
        profile(None),
        "Ungrouped",
    )
    .unwrap();
    assert_eq!(submission.profile.host, "ftp.example.com");
    assert_eq!(submission.profile.username, "me");
    assert_eq!(submission.profile.port, 2121);
    assert_eq!(submission.profile.group, None);
    assert_eq!(submission.profile.security, FtpSecurity::ExplicitTls);
    assert!(submission.on_validated(&mut form, true));
    assert_eq!(submission.step, FtpStep::Store);
    assert!(form.password.is_empty());
    assert_eq!(submission.password_to_store(&form).as_deref(), Some("secret"));
    assert!(submission.on_stored(&mut form, Ok(profile(Some("kc")))));
    assert_eq!(submission.step, FtpStep::ReadStoredPassword);
    assert!(submission.on_stored_password(&mut form, Ok(Some("kept".to_string()))));
    assert_eq!(submission.password, "kept");
    assert!(submission.on_proxy(&mut form, Ok(())));
    assert_eq!(submission.step, FtpStep::Ready);
    assert!(form.pending);
    assert_eq!(form.ftp_profile_id.as_deref(), Some("p1"));
    assert_eq!(form.saved_password_keychain_id.as_deref(), Some("kc"));
    assert!(start_ftp_submission(
        &mut form,
        NewConnectionSubmitAction::Connect,
        profile(None),
        "Ungrouped"
    )
    .is_none());
}

#[test]
fn a_stored_password_is_used_where_none_is_entered() {
    let mut form = form();
    form.password.clear();
    let mut submission = start_ftp_submission(
        &mut form,
        NewConnectionSubmitAction::Connect,
        profile(Some("kc")),
        "Ungrouped",
    )
    .unwrap();
    assert!(submission.on_validated(&mut form, true));
    assert_eq!(submission.step, FtpStep::ReadPassword);
    assert!(!submission.on_password(&mut form, Err("locked".to_string())));
    assert!(matches!(&form.error, Some(FormError::Message(words)) if words == "locked"));
    assert!(submission.on_password(&mut form, Ok(Some("kept".to_string()))));
    assert_eq!(submission.step, FtpStep::ResolveProxy);
    assert!(!submission.on_proxy(&mut form, Err("no proxy".to_string())));
    assert!(matches!(&form.error, Some(FormError::Message(words)) if words == "no proxy"));
}

#[test]
fn a_form_that_cannot_be_used_says_why() {
    let start = |form: &mut NewConnectionForm| {
        start_ftp_submission(form, NewConnectionSubmitAction::Save, profile(None), "Ungrouped")
    };
    let mut no_port = form();
    no_port.port = "x".to_string();
    no_port.connect_timeout_seconds_text = "x".to_string();
    assert!(start(&mut no_port).is_none());
    assert_eq!(key_of(&no_port), "modals.new_connection.ftp_invalid");
    let mut no_time = form();
    no_time.connect_timeout_seconds_text = "x".to_string();
    assert!(start(&mut no_time).is_none());
    assert_eq!(key_of(&no_time), "ssh.form.connect_timeout_invalid");
    let mut broken = form();
    broken.password = "a\r\nDELE x".to_string();
    let mut submission = start(&mut broken).unwrap();
    assert!(!submission.on_validated(&mut broken, true));
    assert_eq!(key_of(&broken), "modals.new_connection.ftp_invalid");
    assert_eq!(broken.password, "a\r\nDELE x");
    let mut refused = form();
    let mut submission = start(&mut refused).unwrap();
    assert!(!submission.on_validated(&mut refused, false));
    assert_eq!(refused.password, "secret");
    let mut portless = form();
    portless.upstream_proxy_policy = NewConnectionUpstreamProxyPolicy::Custom;
    portless.upstream_proxy_port = "none".to_string();
    let mut submission = start(&mut portless).unwrap();
    assert!(!submission.on_validated(&mut portless, true));
    assert!(matches!(portless.error, Some(FormError::Message(_))));
}

#[test]
fn only_the_awaited_attempt_counts() {
    let mut state = ConnectionFormState { form: Some(form()) };
    let first = state.begin_ftp_attempt();
    let second = state.begin_ftp_attempt();
    assert_ne!(first, second);
    assert_eq!(state.finish_ftp_attempt(&first, Ok(()), true), FtpOutcome::TooLate);
    assert_eq!(
        state.finish_ftp_attempt(&second, Err("refused".to_string()), true),
        FtpOutcome::Failed
    );
    let shown = state.form.as_ref().unwrap();
    assert!(!shown.pending);
    assert!(matches!(
        &shown.error,
        Some(FormError::Failed("modals.new_connection.ftp_failed", words)) if words == "refused"
    ));
    let third = state.begin_ftp_attempt();
    assert_eq!(
        state.finish_ftp_attempt(&third, Ok(()), true),
        FtpOutcome::Connected { mark_used: true }
    );
    assert!(state.form.is_none());
    assert_eq!(state.finish_ftp_attempt(&third, Ok(()), true), FtpOutcome::TooLate);
}

#[test]
fn a_stored_profile_fills_the_form() {
    let mut app = app();
    assert!(app.render_ftp_form_branch().is_none());
    let mut form = form();
    show_ftp_profile(&mut form, profile(Some("kc")));
    assert_eq!(form.port, "21");
    assert_eq!(form.connect_timeout_seconds_text, "30");
    assert!(form.save_password);
    assert!(!form.ftp_tls);
    app.connection_form.form = Some(form);
    let view = app.render_ftp_form_branch().unwrap();
    match &view.basic[1] {
        FormRow::Pair(host, port) => {
            assert_eq!((host.label, host.value.as_str()), ("ssh.form.host", "old.example.com"));
            assert_eq!(port.value, "21");
            assert!(matches!(&port.placeholder, Piece::Plain(text) if text == "21"));
        }
        _ => panic!("the host stands beside its port"),
    }
    assert!(matches!(&view.basic[2], FormRow::Group { value, .. } if value == "Work"));
    assert!(matches!(
        &view.authentication[2],
        FormRow::Checkbox { switch: FtpFormSwitch::SavePassword, checked: true, .. }
    ));
    assert!(matches!(
        &view.authentication[3],
        FormRow::Checkbox {
            switch: FtpFormSwitch::Tls,
            label: "modals.new_connection.ftp_tls",
            checked: false,
        }
    ));
    match (&view.rest[0], &view.rest[1], &view.rest[2]) {
        (FormRow::Field(path), FormRow::Field(timeout), FormRow::UpstreamProxy) => {
            assert_eq!(path.field, FtpFormField::InitialRemotePath);
            assert_eq!(path.value, "/srv");
            assert!(matches!(&path.placeholder, Piece::Plain(text) if text == "/"));
            assert!(matches!(&timeout.placeholder, Piece::Plain(text) if text == "30"));
        }
        _ => panic!("the path and the timeout come after the sections"),
    }
    app.connection_form.flip_ftp_switch(FtpFormSwitch::Tls);
    assert!(app.connection_form.form.as_ref().unwrap().ftp_tls);
}

#[test]
fn files_are_shown_by_what_they_hold() {
    let runtime = FtpRuntime { security: FtpSecurity::Plain };
    match runtime.preview("PNG", 0, Ok(vec![1, 2, 3, 4]), None).unwrap() {
        PreviewContent::Image { data, mime_type } => {
            assert_eq!(data, "AQIDBA==");
            assert_eq!(mime_type, "image/png");
        }
        _ => panic!("a picture is shown as one"),
    }
    let decoded = DecodedText {
        data: "text".to_string(),
        language: Some("rust".to_string()),
        encoding: "UTF-8".to_string(),
        has_bom: false,
    };
    assert!(matches!(
        runtime.preview("rs", 0, Ok(b"text".to_vec()), Some(decoded)).unwrap(),
        PreviewContent::Text { mime_type: "text/plain", .. }
    ));
    assert!(matches!(
        runtime.preview("bin", 65_530, Ok(vec![0; 65_600]), None).unwrap(),
        PreviewContent::Hex { start: 65_530, end: 65_600, total_size: 65_600, has_more: false }
    ));
    assert!(matches!(
        runtime.preview("bin", 10, Ok(vec![0; 65_600]), None).unwrap(),
        PreviewContent::Hex { start: 10, end: 65_546, total_size: 65_600, has_more: true }
    ));
    assert!(matches!(
        runtime.preview("bin", 0, Err(FtpReadError::TooLarge), None).unwrap(),
        PreviewContent::TooLarge { size: 10_485_761, max_size: 10_485_760, recommend_download: true }
    ));
    assert_eq!(
        runtime.preview("bin", 0, Err(FtpReadError::Other("gone".to_string())), None).err(),
        Some("gone".to_string())
    );
    let saved = runtime.save(9, "UTF-8", Ok(())).result.unwrap();
    assert_eq!(saved.size, 9);
    assert_eq!(saved.encoding_used, "UTF-8");
    let full = runtime.save(9, "UTF-8", Err(FtpSaveError::NotWritten("full".to_string())));
    assert!(full.clean_up);
    assert_eq!(full.result.err(), Some("full".to_string()));
    let gone = runtime.save(9, "UTF-8", Err(FtpSaveError::NotConnected("gone".to_string())));
    assert!(!gone.clean_up);
    assert_eq!(gone.result.err(), Some("gone".to_string()));
}

#[test]
fn directories_are_listed() {
    let runtime = FtpRuntime { security: FtpSecurity::Plain };
    let entry = |name: &str, kind| FtpEntry {
        name: name.to_string(),
        kind,
        size: Some(7),
        modified: Some(11),
        permissions: None,
    };
    let listing = runtime.listing(
        "/srv//",
        "/home/me",
        &vec![entry("a", FtpEntryKind::Directory), entry("b", FtpEntryKind::Symlink)],
    );
    assert_eq!(listing.files[0].path, "/srv/a");
    assert_eq!(listing.files[0].file_type, SftpFileType::Directory);
    assert!(listing.files[1].is_symlink);
    assert_eq!(listing.files[1].modified, Some(11));
}

#[test]
fn transfers_are_planned_and_paced() {
    let runtime = FtpRuntime { security: FtpSecurity::ExplicitTls };
    let described =
        runtime.describe_transfer(SftpTransferDirection::Upload, true, "/srv/a", Some("a"));
    assert_eq!(described.name, "a");
    assert_eq!(described.kind, BackgroundTransferKind::Directory);
    assert_eq!(described.strategy, RemoteTransferStrategy::DirectoryRecursive);
    assert_eq!(described.protocol, RemoteTransferProtocol::Ftps);
    let plan = |direction, directory, disposition, present| {
        runtime.plan_transfer(direction, directory, disposition, present)
    };
    assert!(matches!(
        plan(
            SftpTransferDirection::Download,
            false,
            LocalDownloadDisposition::CreateNew,
            true
        ),
        Err(FtpTransferError::AlreadyExists)
    ));
    assert!(matches!(
        plan(
            SftpTransferDirection::Upload,
            false,
            LocalDownloadDisposition::ResumeVerified,
            false
        ),
        Err(FtpTransferError::InvalidInput)
    ));
    assert!(matches!(
        plan(SftpTransferDirection::Download, false, LocalDownloadDisposition::Overwrite, true),
        Ok(FtpTransferCommand::DownloadFile { replace: true })
    ));
    assert!(matches!(
        plan(SftpTransferDirection::Upload, true, LocalDownloadDisposition::CreateNew, true),
        Ok(FtpTransferCommand::UploadDirectory)
    ));
    assert_eq!(pause(1_000, 0, 0), None);
    assert_eq!(pause(1_000, 500, 500_000_000), Some(1_500_000_000));
    assert_eq!(pause(1_000, 500, 3_000_000_000), None);
    assert!(!is_due(TransferProgress { completed: 1, total: Some(2) }, 49));
    assert!(is_due(TransferProgress { completed: 1, total: Some(2) }, 50));
    assert!(is_due(TransferProgress { completed: 2, total: Some(2) }, 0));
    let done = end_transfer(Ok(5), true);
    assert_eq!(done.bytes, Some(5));
    assert!(!done.clean_up);
    assert!(done.result.is_ok());
    let failure = |cancelled| {
        Err(FtpTransferFailure { cancelled, words: "the line broke".to_string() })
    };
    let cancelled = end_transfer(failure(true), true);
    assert_eq!(cancelled.state, BackgroundTransferState::Cancelled);
    assert_eq!(cancelled.error, None);
    assert!(cancelled.clean_up);
    assert_eq!(cancelled.result.err().as_deref(), Some("the line broke"));
    let refused = end_transfer(failure(false), false);
    assert_eq!(refused.state, BackgroundTransferState::Error);
    assert_eq!(refused.error.as_deref(), Some("the line broke"));
    assert!(!refused.clean_up);
}

#[test]
fn the_protocol_is_that_of_the_session() {
    let mut app = app();
    app.ftp_sessions.insert("s".to_string(), FtpRuntime { security: FtpSecurity::ExplicitTls });
    let configured = RemoteTransferProtocol::Scp;
    assert_eq!(
        app.transfer_protocol_for_remote(&SftpRemoteId::Ftp("s".to_string()), configured),
        RemoteTransferProtocol::Ftps
    );
    assert_eq!(
        app.transfer_protocol_for_remote(&SftpRemoteId::Ftp("gone".to_string()), configured),
        RemoteTransferProtocol::Ftp
    );
    assert_eq!(
        app.transfer_protocol_for_remote(&SftpRemoteId::Node("n".to_string()), configured),
        configured
    );
}

#[test]
fn a_submission_that_is_ready_is_launched() {
    let ready = |action| {
        let mut form = form();
        let mut submission =
            start_ftp_submission(&mut form, action, profile(None), "Ungrouped").unwrap();
        assert!(submission.on_validated(&mut form, true));
        if submission.step == FtpStep::Store {
            assert!(submission.on_stored(&mut form, Ok(profile(None))));
        }
        while submission.step != FtpStep::Ready {
            match submission.step {
                FtpStep::ReadPassword => {
                    assert!(submission.on_password(&mut form, Ok(None)));
                }
                FtpStep::ReadStoredPassword => {
                    assert!(submission.on_stored_password(&mut form, Ok(None)));
                }
                FtpStep::ResolveProxy => {
                    assert!(submission.on_proxy(&mut form, Ok(())));
                }
                _ => panic!("stuck"),
            }
        }
        (ConnectionFormState { form: Some(form) }, submission)
    };
    let (mut state, submission) = ready(NewConnectionSubmitAction::SaveAndConnect);
    let launch = state.launch_ftp_submission(&submission);
    assert!(launch.refreshes_sync);
    let attempt = launch.attempt.unwrap();
    let result = attempt_result(None);
    assert_eq!(result, Err("FTP connection task ended".to_string()));
    assert_eq!(state.finish_ftp_attempt(&attempt, result, true), FtpOutcome::Failed);
    assert!(matches!(
        &state.form.as_ref().unwrap().error,
        Some(FormError::Failed(_, words)) if words == "FTP connection task ended"
    ));
    assert_eq!(attempt_result(Some(Ok(()))), Ok(()));

    let (mut state, submission) = ready(NewConnectionSubmitAction::Connect);
    let launch = state.launch_ftp_submission(&submission);
    assert!(!launch.refreshes_sync);
    assert!(launch.attempt.is_some());
    assert!(state.form.is_some());

    let (mut state, submission) = ready(NewConnectionSubmitAction::Save);
    let launch = state.launch_ftp_submission(&submission);
    assert!(launch.refreshes_sync);
    assert!(launch.attempt.is_none());
    assert!(state.form.is_none());
}

#[test]
fn a_transfer_starts_only_while_it_is_registered() {
    let runtime = FtpRuntime { security: FtpSecurity::Plain };
    let begin = |registered| {
        runtime.begin_transfer(registered, SftpTransferDirection::Download, false, "/srv/a", None)
    };
    let transfer = begin(true).unwrap();
    assert_eq!(transfer.name, "/srv/a");
    assert_eq!(transfer.kind, BackgroundTransferKind::File);
    assert_eq!(transfer.protocol, RemoteTransferProtocol::Ftp);
    assert!(matches!(
        begin(false),
        Err(words) if words == "FTP transfer is no longer registered"
    ));
}
