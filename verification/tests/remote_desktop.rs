use oxideterm_workspace::ai_state::model::AgentConversationOptions;
use oxideterm_workspace::table::Table;
use oxideterm_workspace::workspace::app::{AiSettings, WorkspaceApp};
use oxideterm_workspace::workspace::remote_certificates::{
    certificate_dialog, RemoteDesktopCertificateAcceptance,
};
use oxideterm_workspace::workspace::remote_desktop::{
    ClipboardItem, KeyRole, Keystroke, NegotiatedCapabilities, RemoteDesktopCapabilities,
    RemoteDesktopClipboardOptions, RemoteDesktopEndpoint, RemoteDesktopHelperRequest,
    RemoteDesktopKeyState, RemoteDesktopLockKeys, RemoteDesktopMappedPoint,
    RemoteDesktopModifierState, RemoteDesktopMouseButton, RemoteDesktopMouseButtonState,
    RemoteDesktopProtocol, RemoteDesktopServerCertificate, RemoteDesktopServerIdentityKind,
    RemoteDesktopSessionEntity, RemoteDesktopVncSecurityPolicy, WheelTurn,
};
use oxideterm_workspace::workspace::remote_tabs::{Tab, TabKind};
use oxideterm_workspace::workspace::saved_connections::SecretText;
use oxideterm_workspace::workspace::settings_events::WorkspaceSettings;

const NO_MODIFIERS: RemoteDesktopModifierState =
    RemoteDesktopModifierState { alt: false, ctrl: false, shift: false, meta: false };

fn session(protocol: RemoteDesktopProtocol) -> RemoteDesktopSessionEntity {
    RemoteDesktopSessionEntity {
        protocol,
        endpoint: RemoteDesktopEndpoint { host: "desk.example.com".to_string(), port: 3389 },
        username: Some("me".to_string()),
        domain: None,
        security_policy: RemoteDesktopVncSecurityPolicy::RequireVerifiedEncryption,
        clipboard: RemoteDesktopClipboardOptions { text: true, images: true, files: true },
        capabilities: RemoteDesktopCapabilities {
            resize: true,
            clipboard_text: true,
            clipboard_data: true,
            clipboard_files: true,
        },
        negotiated: None,
        worker: true,
        worker_generation: 4,
        sent: Vec::new(),
        disconnected: false,
        resize_requested: None,
        cursor: None,
        pressed_mouse_buttons: Vec::new(),
        wheel_remainder: None,
        last_input_modifiers: NO_MODIFIERS,
        last_lock_keys: None,
        certificate_challenge: None,
        session_trusted_certificate_fingerprint: None,
        password: Some(SecretText::new("secret".to_string())),
    }
}

fn app() -> WorkspaceApp {
    let mut app = WorkspaceApp::new(
        AiSettings {
            providers: Vec::new(),
            agent_concurrency: None,
            default_agent_concurrency: 4,
            max_agent_concurrency: 16,
        },
        WorkspaceSettings {
            background_blur: 0,
            background_image: None,
            theme: "default".to_string(),
            custom_themes: Table::new(),
            key_overrides: Table::new(),
        },
        AgentConversationOptions { enabled: true, default_model: None },
        true,
        "mono".to_string(),
    );
    app.remote_sessions.insert(71, session(RemoteDesktopProtocol::Rdp));
    app.remote_sessions.insert(72, session(RemoteDesktopProtocol::Vnc));
    app
}

fn stroke(key: &str, modifiers: RemoteDesktopModifierState) -> Keystroke {
    Keystroke { key: key.to_string(), key_char: None, modifiers }
}

fn text_item(words: &str) -> ClipboardItem {
    ClipboardItem { paths: None, data: None, text: Some(words.to_string()) }
}

fn take(app: &mut WorkspaceApp, tab: u64) -> Vec<RemoteDesktopHelperRequest> {
    let mut session = app.remote_sessions.remove(&tab).unwrap();
    let sent = std::mem::take(&mut session.sent);
    app.remote_sessions.insert(tab, session);
    sent
}

#[test]
fn remote_window_routes_keyboard_and_clipboard_to_its_own_session() {
    let mut app = app();
    for (tab, other, protocol) in
        [(71, 72, RemoteDesktopProtocol::Rdp), (72, 71, RemoteDesktopProtocol::Vnc)]
    {
        app.active_tab = Some(Tab { id: tab, kind: TabKind::RemoteDesktop });
        let key = stroke("a", NO_MODIFIERS);
        assert!(app.forward_remote_desktop_key_from_capture(&key, KeyRole::Input, None, None));
        assert!(app.forward_remote_desktop_key_up(&key, KeyRole::Input));
        let shift = RemoteDesktopModifierState { shift: true, ..NO_MODIFIERS };
        assert!(app.forward_remote_desktop_modifiers_changed(shift, false));
        assert!(app.forward_remote_desktop_modifiers_changed(NO_MODIFIERS, false));
        let mut keys = Vec::new();
        let mut lock_states = Vec::new();
        for request in take(&mut app, tab) {
            match request {
                RemoteDesktopHelperRequest::Key { key, key_state } => {
                    keys.push((key.code, key_state))
                }
                RemoteDesktopHelperRequest::SynchronizeLockKeys { keys } => {
                    lock_states.push(keys.caps_lock)
                }
                _ => panic!("unexpected remote input request"),
            }
        }
        assert_eq!(
            keys,
            vec![
                ("a".to_string(), RemoteDesktopKeyState::Pressed),
                ("a".to_string(), RemoteDesktopKeyState::Released),
                ("ShiftLeft".to_string(), RemoteDesktopKeyState::Pressed),
                ("ShiftLeft".to_string(), RemoteDesktopKeyState::Released),
            ]
        );
        assert_eq!(lock_states, vec![false]);

        let control = RemoteDesktopModifierState { ctrl: true, ..NO_MODIFIERS };
        let paste = stroke("v", control);
        assert!(app.forward_remote_desktop_key_from_capture(
            &paste,
            KeyRole::Paste,
            Some(text_item("remote paste")),
            None
        ));
        assert!(app.forward_remote_desktop_key_up(&paste, KeyRole::Paste));
        let sent = take(&mut app, tab);
        match &sent[0] {
            RemoteDesktopHelperRequest::Key { key, key_state } => {
                assert_eq!(key.code, "control");
                assert_eq!(key.text, None);
                assert_eq!(key.modifiers, NO_MODIFIERS);
                assert_eq!(*key_state, RemoteDesktopKeyState::Released);
            }
            _ => panic!("unexpected {protocol:?} paste requests"),
        }
        match protocol {
            RemoteDesktopProtocol::Rdp => {
                assert_eq!(sent.len(), 2);
                assert!(matches!(
                    &sent[1],
                    RemoteDesktopHelperRequest::PasteText { secret }
                        if secret.expose_secret() == "remote paste"
                ));
            }
            RemoteDesktopProtocol::Vnc => {
                assert_eq!(sent.len(), 3);
                assert!(matches!(
                    &sent[1],
                    RemoteDesktopHelperRequest::ClipboardText { words } if words == "remote paste"
                ));
                assert!(matches!(
                    &sent[2],
                    RemoteDesktopHelperRequest::Text { words } if words == "remote paste"
                ));
            }
        }
        assert!(take(&mut app, other).is_empty(), "input leaked to another window");
    }
}

#[test]
fn rdp_paste_sends_one_clipboard_transaction_and_respects_text_permission() {
    let mut session = session(RemoteDesktopProtocol::Rdp);
    let text = "code\n\t中文🦀\r\n".repeat(512);
    session.paste_clipboard(text_item(&text));
    match &session.sent[0] {
        RemoteDesktopHelperRequest::PasteText { secret } => {
            assert_eq!(secret.expose_secret(), text)
        }
        _ => panic!("RDP paste must use a single clipboard transaction"),
    }
    assert_eq!(session.sent.len(), 1, "paste must not also inject keyboard text");
    session.clipboard.text = false;
    session.paste_clipboard(text_item("blocked"));
    assert_eq!(session.sent.len(), 1, "disabled clipboard text must not be sent");
}

#[test]
fn files_and_pictures_go_before_text() {
    let item = || ClipboardItem {
        paths: Some(vec!["/tmp/a".to_string()]),
        data: Some(9),
        text: Some("words".to_string()),
    };
    let mut rdp = session(RemoteDesktopProtocol::Rdp);
    rdp.paste_clipboard(item());
    rdp.paste_clipboard(item());
    let ids: Vec<&str> = rdp
        .sent
        .iter()
        .map(|request| match request {
            RemoteDesktopHelperRequest::ClipboardFiles { transfer_id, paths } => {
                assert_eq!(paths, &vec!["/tmp/a".to_string()]);
                transfer_id.as_str()
            }
            _ => panic!("files are handed over as files"),
        })
        .collect();
    assert_ne!(ids[0], ids[1]);
    let mut vnc = session(RemoteDesktopProtocol::Vnc);
    vnc.paste_clipboard(item());
    assert!(vnc.sent.is_empty());
    vnc.paste_clipboard(ClipboardItem { paths: None, data: Some(9), text: None });
    assert!(vnc.sent.is_empty());
    vnc.negotiated = Some(NegotiatedCapabilities {
        vendor_file_upload: true,
        extended_clipboard: true,
        extended_clipboard_formats: vec!["dib-v5".to_string()],
    });
    vnc.paste_clipboard(ClipboardItem { paths: None, data: Some(9), text: None });
    assert!(matches!(vnc.sent[0], RemoteDesktopHelperRequest::ClipboardData { data: 9 }));
    vnc.paste_clipboard(item());
    assert!(matches!(vnc.sent[1], RemoteDesktopHelperRequest::ClipboardFiles { .. }));
}

#[test]
fn buttons_are_released_where_they_were_pressed() {
    let mut session = session(RemoteDesktopProtocol::Rdp);
    let point = Some(RemoteDesktopMappedPoint { x: 3, y: 4 });
    assert!(session.handle_mouse_move(point));
    assert!(!session.handle_mouse_move(None));
    assert!(session.handle_mouse_button(
        point,
        RemoteDesktopMouseButton::Left,
        RemoteDesktopMouseButtonState::Pressed
    ));
    assert_eq!(session.pressed_mouse_buttons, vec![RemoteDesktopMouseButton::Left]);
    assert!(!session.release_mouse_button_out(RemoteDesktopMouseButton::Right));
    assert!(session.release_mouse_button_out(RemoteDesktopMouseButton::Left));
    assert!(session.pressed_mouse_buttons.is_empty());
    let left = Some((0.5f64.to_bits(), 0f64.to_bits()));
    let turn = WheelTurn { steps: Some((0, -1)), remainder: left };
    assert!(!session.handle_wheel(None, turn));
    assert_eq!(session.wheel_remainder, None);
    assert!(session.handle_wheel(point, turn));
    assert_eq!(session.wheel_remainder, left);
    assert!(matches!(
        session.sent.last(),
        Some(RemoteDesktopHelperRequest::Wheel { delta_x: 0, delta_y: -1 })
    ));
    assert!(session.handle_mouse_button(
        point,
        RemoteDesktopMouseButton::Left,
        RemoteDesktopMouseButtonState::Pressed
    ));
    session.release_inputs();
    assert!(matches!(session.sent.last(), Some(RemoteDesktopHelperRequest::ReleaseAllInputs)));
    assert!(session.last_lock_keys.is_none());
    assert!(session.wheel_remainder.is_none());
    let sent = session.sent.len();
    for button in [
        RemoteDesktopMouseButton::Left,
        RemoteDesktopMouseButton::Right,
        RemoteDesktopMouseButton::Middle,
    ] {
        assert!(!session.release_mouse_button_out(button));
    }
    assert_eq!(session.sent.len(), sent);
}

#[test]
fn lock_keys_are_told_once() {
    let mut session = session(RemoteDesktopProtocol::Rdp);
    session.sync_lock_keys(true);
    session.sync_lock_keys(true);
    assert_eq!(session.sent.len(), 1);
    let keys = RemoteDesktopLockKeys { caps_lock: true, num_lock: true, scroll_lock: false };
    session.sync_lock_key_press(Some(keys));
    session.sync_lock_key_press(None);
    assert_eq!(session.sent.len(), 2);
    assert_eq!(session.last_lock_keys, Some(keys));
    session.send_control_shortcut("c");
    assert_eq!(session.sent.len(), 4);
}

fn certificate(kind: RemoteDesktopServerIdentityKind) -> RemoteDesktopServerCertificate {
    RemoteDesktopServerCertificate {
        challenge_id: "challenge".to_string(),
        endpoint: RemoteDesktopEndpoint { host: "desk.example.com".to_string(), port: 3389 },
        protocol: RemoteDesktopProtocol::Rdp,
        identity_kind: kind,
        sha256_fingerprint: "aa:bb".to_string(),
        security_method: "x509".to_string(),
    }
}

#[test]
fn an_unknown_certificate_is_put_to_the_user() {
    let mut app = app();
    let mut rdp = session(RemoteDesktopProtocol::Rdp);
    rdp.handle_certificate(
        4,
        certificate(RemoteDesktopServerIdentityKind::X509Certificate),
        Some("cc:dd".to_string()),
    );
    let challenge = rdp.certificate_challenge.as_ref().unwrap();
    assert_eq!(challenge.expected_fingerprint.as_deref(), Some("cc:dd"));
    let dialog = certificate_dialog(challenge, "host:3389".to_string());
    let presented = dialog.presented.unwrap();
    assert_eq!(presented.label, "remote_desktop.certificate_presented_fingerprint");
    assert_eq!(presented.fingerprint, "aa:bb");
    let saved = dialog.saved.unwrap();
    assert_eq!(saved.label, "remote_desktop.certificate_saved_fingerprint");
    assert_eq!(saved.fingerprint, "cc:dd");
    assert_eq!(dialog.endpoint.key, "remote_desktop.certificate_endpoint");
    assert_eq!(
        dialog.endpoint.values,
        vec![("endpoint".to_string(), "host:3389".to_string())]
    );
    assert_eq!(dialog.cancel, "common.actions.cancel");
    assert!(dialog.method.is_none());
    app.remote_sessions.insert(71, rdp);
    app.toggle_remote_desktop_certificate_remember(71, "challenge");
    assert!(app.remote_sessions.get(&71).unwrap().must_store(4, "challenge", "aa:bb"));
    let mut rdp = app.remote_sessions.remove(&71).unwrap();
    assert_eq!(
        rdp.accept_certificate(4, "challenge", "aa:bb", false),
        RemoteDesktopCertificateAcceptance::StoreFailed
    );
    assert_eq!(
        rdp.accept_certificate(3, "challenge", "aa:bb", true),
        RemoteDesktopCertificateAcceptance::Ignored
    );
    assert_eq!(
        rdp.accept_certificate(4, "challenge", "ee:ff", true),
        RemoteDesktopCertificateAcceptance::Ignored
    );
    assert!(rdp.sent.is_empty());
    assert_eq!(
        rdp.accept_certificate(4, "challenge", "aa:bb", true),
        RemoteDesktopCertificateAcceptance::Accepted
    );
    assert!(matches!(
        &rdp.sent[0],
        RemoteDesktopHelperRequest::Authenticate { password: Some(password), username: Some(name), .. }
            if password.expose_secret() == "secret" && name == "me"
    ));
    assert!(rdp.session_trusted_certificate_fingerprint.is_none());
}

#[test]
fn consent_for_a_session_lasts_for_it() {
    let mut rdp = session(RemoteDesktopProtocol::Rdp);
    let shown = || certificate(RemoteDesktopServerIdentityKind::X509Certificate);
    rdp.handle_certificate(4, shown(), None);
    rdp.accept_certificate(4, "challenge", "aa:bb", false);
    assert_eq!(rdp.session_trusted_certificate_fingerprint.as_deref(), Some("aa:bb"));
    rdp.handle_certificate(4, shown(), None);
    assert!(rdp.certificate_challenge.is_none());
    assert_eq!(rdp.sent.len(), 2);
    let mut open = shown();
    open.security_method = "x509-none".to_string();
    rdp.handle_certificate(4, open, None);
    assert!(rdp.password.is_none());
    assert!(matches!(
        rdp.sent.last(),
        Some(RemoteDesktopHelperRequest::Authenticate { password: None, .. })
    ));
}

#[test]
fn weak_and_foreign_hosts_are_turned_away() {
    let mut rdp = session(RemoteDesktopProtocol::Rdp);
    rdp.handle_certificate(4, certificate(RemoteDesktopServerIdentityKind::AnonymousTls), None);
    assert!(matches!(rdp.sent.last(), Some(RemoteDesktopHelperRequest::Close)));
    rdp.security_policy = RemoteDesktopVncSecurityPolicy::AllowUnverifiedEncryption;
    rdp.handle_certificate(4, certificate(RemoteDesktopServerIdentityKind::InsecureLegacy), None);
    assert_eq!(rdp.sent.len(), 2);
    rdp.handle_certificate(4, certificate(RemoteDesktopServerIdentityKind::AnonymousTls), None);
    assert!(rdp.certificate_challenge.is_some());
    rdp.reject_certificate(4, "other");
    assert!(rdp.certificate_challenge.is_some());
    rdp.reject_certificate(4, "challenge");
    assert!(rdp.certificate_challenge.is_none());
    assert_eq!(rdp.sent.len(), 3);
    let mut foreign = certificate(RemoteDesktopServerIdentityKind::X509Certificate);
    foreign.endpoint.port = 3390;
    rdp.handle_certificate(4, foreign, Some("aa:bb".to_string()));
    assert_eq!(rdp.sent.len(), 4);
    assert!(matches!(rdp.sent.last(), Some(RemoteDesktopHelperRequest::Close)));
    rdp.handle_certificate(
        9,
        certificate(RemoteDesktopServerIdentityKind::X509Certificate),
        Some("aa:bb".to_string()),
    );
    assert_eq!(rdp.sent.len(), 4);
}

#[test]
fn other_tabs_take_no_input() {
    let mut app = app();
    assert_eq!(app.active_remote_desktop_tab_id(), None);
    app.active_tab = Some(Tab { id: 71, kind: TabKind::Terminal });
    assert_eq!(app.active_remote_desktop_tab_id(), None);
    assert!(!app.paste_remote_desktop(Some(text_item("words"))));
    assert!(!app.copy_remote_desktop());
    assert!(take(&mut app, 71).is_empty());
    app.active_tab = Some(Tab { id: 71, kind: TabKind::RemoteDesktop });
    assert!(app.copy_remote_desktop());
    assert_eq!(take(&mut app, 71).len(), 2);
    assert!(app.paste_remote_desktop(Some(text_item("words"))));
    assert_eq!(take(&mut app, 71).len(), 1);
}

#[test]
fn the_wheel_turns_in_its_own_tab() {
    let mut app = app();
    let point = Some(RemoteDesktopMappedPoint { x: 3, y: 4 });
    let left = Some((0.25f64.to_bits(), 0f64.to_bits()));
    let turn = WheelTurn { steps: Some((1, 0)), remainder: left };
    assert!(!app.handle_remote_desktop_wheel(999, point, turn));
    assert!(!app.handle_remote_desktop_wheel(71, None, turn));
    assert!(take(&mut app, 71).is_empty());
    assert!(app.handle_remote_desktop_wheel(71, point, turn));
    assert!(matches!(
        take(&mut app, 71).last(),
        Some(RemoteDesktopHelperRequest::Wheel { delta_x: 1, delta_y: 0 })
    ));
}

#[test]
fn the_pointer_moves_in_its_own_tab() {
    let mut app = app();
    let point = Some(RemoteDesktopMappedPoint { x: 3, y: 4 });
    let press = RemoteDesktopMouseButtonState::Pressed;
    let button = RemoteDesktopMouseButton::Left;
    assert!(!app.handle_remote_desktop_mouse_move(999, point));
    assert!(app.handle_remote_desktop_mouse_move(71, point));
    assert!(!app.handle_remote_desktop_mouse_button(999, point, button, press));
    assert!(app.handle_remote_desktop_mouse_button(72, point, button, press));
    assert_eq!(take(&mut app, 71).len(), 1);
    assert!(!take(&mut app, 72).is_empty());
    assert!(!app.handle_remote_desktop_mouse_button_release_out(71, button));
    assert!(app.handle_remote_desktop_mouse_button_release_out(72, button));
    assert_eq!(take(&mut app, 72).len(), 1);
}
