use oxideterm_workspace::workspace::connection_form::{
    NewConnectionForm, NewConnectionProxyHop, NewConnectionUpstreamProxyAuth,
    NewConnectionUpstreamProxyPolicy, SshAuthTab,
};
use oxideterm_workspace::workspace::saved_connections::{
    password_draft_mut, save_request_from_form, save_request_from_form_with_existing_auth,
    save_request_from_form_with_proxy_hop_prefix, SaveFormError, SavedAuth,
    SavedUpstreamProxyAuth, SavedUpstreamProxyPolicy,
};
use oxideterm_workspace::workspace::ssh_algorithms::SshAlgorithmPreferences;

fn base_form() -> NewConnectionForm {
    let mut form = NewConnectionForm::default();
    form.name = "Home".to_string();
    form.host = "192.168.1.2".to_string();
    form.port = "22".to_string();
    form.username = "me".to_string();
    form.group = "Ungrouped".to_string();
    form
}

#[test]
fn unnamed_save_request_preserves_custom_icon_and_independent_colors() {
    let mut form = base_form();
    form.name.clear();
    form.icon = "cloud".to_string();
    form.color = "#7dd3fc".to_string();
    form.icon_background_color = "#082f49".to_string();
    let request = save_request_from_form(&mut form, Some("conn-1".to_string())).ok().unwrap();

    assert_eq!(request.name, "me@192.168.1.2");
    assert_eq!(request.icon.as_deref(), Some("cloud"));
    assert_eq!(request.color.as_deref(), Some("#7dd3fc"));
    assert_eq!(request.icon_background_color.as_deref(), Some("#082f49"));
}

#[test]
fn save_request_moves_manual_proxy_command_into_a_redacted_secret_owner() {
    let mut form = base_form();
    form.proxy_command_enabled = true;
    form.proxy_command = "helper --token proxy-command-secret".to_string();

    let request = save_request_from_form(&mut form, None).ok().unwrap();
    let saved_command = request.proxy_command.unwrap();

    assert!(form.proxy_command.is_empty());
    assert_eq!(
        saved_command.plaintext_command.as_ref().unwrap().expose_secret(),
        "helper --token proxy-command-secret"
    );
    assert!(!saved_command.describe().contains("proxy-command-secret"));
    assert_eq!(saved_command.describe(), "proxy command [redacted]");
}

#[test]
fn new_connection_save_password_false_does_not_request_keychain_storage() {
    let mut form = base_form();
    form.password = "secret".to_string();
    form.save_password = false;

    let request = save_request_from_form(&mut form, None).ok().unwrap();

    match request.auth {
        SavedAuth::Password { keychain_id: None, plaintext_password: None, .. } => {}
        _ => panic!("unexpected auth"),
    }
}

#[test]
fn empty_passwords_are_told_from_missing_ones() {
    for empty_password in [false, true] {
        let mut form = base_form();
        form.password.clear();
        form.save_password = true;
        form.empty_password = empty_password;
        let request = save_request_from_form(&mut form, None).ok().unwrap();
        assert_eq!(request.auth.uses_empty_password(), empty_password);
        assert!(matches!(
            request.auth,
            SavedAuth::Password { keychain_id: None, plaintext_password: None, .. }
        ));
    }
}

#[test]
fn edit_properties_optional_name_preserves_connection_identity_and_saved_password() {
    let existing = SavedAuth::Password {
        empty_password: false,
        keychain_id: Some("kc-password".to_string()),
        plaintext_password: None,
    };
    for (name, expected) in [
        ("Home", "Home"),
        ("", "deploy@server.example.com"),
        (" \t ", "deploy@server.example.com"),
    ] {
        let mut form = base_form();
        form.name = name.to_string();
        form.host = " server.example.com ".to_string();
        form.username = " deploy ".to_string();
        form.password_loaded = false;
        form.save_password = true;

        let request = save_request_from_form_with_existing_auth(
            &mut form,
            Some("conn-1".to_string()),
            Some(&existing),
        )
        .ok()
        .unwrap();
        assert_eq!(request.name, expected);
        assert_eq!(request.id.as_deref(), Some("conn-1"));
        assert_eq!(request.host, "server.example.com");
        assert_eq!(request.username, "deploy");
        match request.auth {
            SavedAuth::Password { keychain_id: Some(keychain_id), plaintext_password: None, .. } => {
                assert_eq!(keychain_id, "kc-password");
            }
            _ => panic!("unexpected auth"),
        }
    }
}

#[test]
fn edit_properties_same_key_empty_passphrase_submits_no_new_secret() {
    let existing = SavedAuth::Key {
        key_path: "/tmp/id_ed25519".to_string(),
        has_passphrase: true,
        passphrase_keychain_id: Some("kc-passphrase".to_string()),
        plaintext_passphrase: None,
    };
    let mut form = base_form();
    form.auth_tab = SshAuthTab::SshKey;
    form.key_path = "/tmp/id_ed25519".to_string();
    form.passphrase = String::new();

    let request = save_request_from_form_with_existing_auth(
        &mut form,
        Some("conn-1".to_string()),
        Some(&existing),
    )
    .ok()
    .unwrap();

    match request.auth {
        SavedAuth::Key {
            key_path,
            has_passphrase,
            passphrase_keychain_id: None,
            plaintext_passphrase: None,
        } => {
            assert_eq!(key_path, "/tmp/id_ed25519");
            assert!(!has_passphrase);
        }
        _ => panic!("unexpected auth"),
    }
}

#[test]
fn new_connection_request_carries_proxy_chain() {
    let mut form = base_form();
    form.auth_tab = SshAuthTab::Agent;
    form.identity_agent = "  /tmp/target-agent.sock  ".to_string();
    form.agent_forwarding_socket = Some("/tmp/target-forward.sock".to_string());
    form.proxy_hops.push(NewConnectionProxyHop {
        empty_password: false,
        saved_connection_id: String::new(),
        persisted_proxy_hop_index: None,
        host: "jump.example.com".to_string(),
        port: "2222".to_string(),
        username: "ops".to_string(),
        auth_tab: SshAuthTab::Password,
        password: "jump-secret".to_string(),
        key_path: String::new(),
        managed_key_id: String::new(),
        cert_path: String::new(),
        passphrase: String::new(),
        gssapi_enabled: false,
        gssapi_server_identity: String::new(),
        gssapi_delegate_credentials: false,
        agent_forwarding: true,
        identity_agent: "  /tmp/jump-agent.sock  ".to_string(),
        agent_forwarding_socket: Some("/tmp/jump-forward.sock".to_string()),
        legacy_ssh_compatibility: true,
        ssh_algorithms: SshAlgorithmPreferences::preset(),
    });

    let request = save_request_from_form(&mut form, None).ok().unwrap();

    assert_eq!(request.identity_agent.as_deref(), Some("/tmp/target-agent.sock"));
    assert_eq!(request.agent_forwarding_socket.as_deref(), Some("/tmp/target-forward.sock"));
    assert_eq!(request.proxy_chain.len(), 1);
    let hop = &request.proxy_chain[0];
    assert_eq!(hop.host, "jump.example.com");
    assert_eq!(hop.port, 2222);
    assert_eq!(hop.username, "ops");
    assert!(hop.agent_forwarding);
    assert_eq!(hop.identity_agent.as_deref(), Some("/tmp/jump-agent.sock"));
    assert_eq!(hop.agent_forwarding_socket.as_deref(), Some("/tmp/jump-forward.sock"));
    assert!(hop.legacy_ssh_compatibility);
    match &hop.auth {
        SavedAuth::Password { keychain_id: None, plaintext_password: Some(password), .. } => {
            assert_eq!(password.expose_secret(), "jump-secret")
        }
        _ => panic!("unexpected proxy auth"),
    }
}

#[test]
fn save_request_moves_all_visible_password_allocations_and_redacts_debug() {
    let mut form = base_form();
    form.password = "target-secret-marker".to_string();
    form.save_password = true;
    let target_pointer = form.password.as_ptr();

    let mut hop = NewConnectionProxyHop::new();
    hop.host = "jump.example.com".to_string();
    hop.username = "ops".to_string();
    hop.auth_tab = SshAuthTab::Password;
    hop.password = "jump-secret-marker".to_string();
    let hop_pointer = hop.password.as_ptr();
    form.proxy_hops.push(hop);

    form.upstream_proxy_policy = NewConnectionUpstreamProxyPolicy::Custom;
    form.upstream_proxy_host = "proxy.example.com".to_string();
    form.upstream_proxy_port = "1080".to_string();
    form.upstream_proxy_auth = NewConnectionUpstreamProxyAuth::Password;
    form.upstream_proxy_username = "proxy-user".to_string();
    form.upstream_proxy_password = "upstream-secret-marker".to_string();
    let upstream_pointer = form.upstream_proxy_password.as_ptr();

    let request = save_request_from_form(&mut form, None).ok().unwrap();

    assert!(form.password.is_empty());
    assert!(form.proxy_hops[0].password.is_empty());
    assert!(form.upstream_proxy_password.is_empty());
    match &request.auth {
        SavedAuth::Password { plaintext_password: Some(password), .. } => {
            assert_eq!(password.expose_secret().as_ptr(), target_pointer)
        }
        _ => panic!("unexpected target auth"),
    }
    match &request.proxy_chain[0].auth {
        SavedAuth::Password { plaintext_password: Some(password), .. } => {
            assert_eq!(password.expose_secret().as_ptr(), hop_pointer)
        }
        _ => panic!("unexpected proxy auth"),
    }
    match &request.upstream_proxy {
        SavedUpstreamProxyPolicy::Custom { proxy } => match &proxy.auth {
            SavedUpstreamProxyAuth::Password { plaintext_password: Some(password), .. } => {
                assert_eq!(password.expose_secret().as_ptr(), upstream_pointer)
            }
            _ => panic!("unexpected upstream auth"),
        },
        _ => panic!("unexpected upstream policy"),
    }

    let description = request.describe();
    for secret in ["target-secret-marker", "jump-secret-marker", "upstream-secret-marker"] {
        assert!(!description.contains(secret));
    }
}

#[test]
fn save_request_moves_key_passphrase_allocation() {
    let mut form = base_form();
    form.auth_tab = SshAuthTab::SshKey;
    form.key_path = "/tmp/id_ed25519".to_string();
    form.passphrase = "passphrase-secret-marker".to_string();
    let passphrase_pointer = form.passphrase.as_ptr();

    let request = save_request_from_form(&mut form, None).ok().unwrap();

    assert!(form.passphrase.is_empty());
    match request.auth {
        SavedAuth::Key { plaintext_passphrase: Some(passphrase), .. } => {
            assert_eq!(passphrase.expose_secret().as_ptr(), passphrase_pointer)
        }
        _ => panic!("unexpected auth"),
    }
}

#[test]
fn save_validation_failure_keeps_secret_allocations_in_the_form() {
    let mut form = base_form();
    form.host.clear();
    form.password = "validation-secret-marker".to_string();
    form.save_password = true;
    let password_pointer = form.password.as_ptr();

    let error = save_request_from_form(&mut form, None).err().unwrap();

    assert!(error.message().contains("Host is required"));
    assert_eq!(form.password, "validation-secret-marker");
    assert_eq!(form.password.as_ptr(), password_pointer);
}

#[test]
fn every_fault_of_a_form_has_its_error() {
    let fault = |change: fn(&mut NewConnectionForm)| {
        let mut form = base_form();
        change(&mut form);
        save_request_from_form(&mut form, None).err()
    };
    assert_eq!(fault(|form| form.host = "  ".to_string()), Some(SaveFormError::HostRequired));
    assert_eq!(fault(|form| form.port = "65536".to_string()), Some(SaveFormError::InvalidPort));
    assert_eq!(
        fault(|form| form.connect_timeout_seconds_text = "soon".to_string()),
        Some(SaveFormError::InvalidTimeout)
    );
    assert_eq!(
        fault(|form| {
            let mut hop = NewConnectionProxyHop::new();
            hop.port = "x".to_string();
            form.proxy_hops.push(hop);
        }),
        Some(SaveFormError::InvalidHopPort)
    );
    assert_eq!(
        fault(|form| {
            form.upstream_proxy_policy = NewConnectionUpstreamProxyPolicy::Custom;
            form.upstream_proxy_port = "".to_string();
        }),
        Some(SaveFormError::InvalidProxyPort)
    );
    assert_eq!(fault(|_| {}), None);
}

#[test]
fn proxy_hop_two_factor_is_saved_as_keyboard_interactive() {
    let mut form = base_form();
    form.auth_tab = SshAuthTab::Agent;
    form.proxy_hops.push(NewConnectionProxyHop {
        empty_password: false,
        saved_connection_id: String::new(),
        persisted_proxy_hop_index: None,
        host: "jump.example.com".to_string(),
        port: "22".to_string(),
        username: "ops".to_string(),
        auth_tab: SshAuthTab::TwoFactor,
        password: String::new(),
        key_path: String::new(),
        managed_key_id: String::new(),
        cert_path: String::new(),
        passphrase: String::new(),
        gssapi_enabled: false,
        gssapi_server_identity: String::new(),
        gssapi_delegate_credentials: false,
        agent_forwarding: false,
        identity_agent: String::new(),
        agent_forwarding_socket: None,
        legacy_ssh_compatibility: false,
        ssh_algorithms: SshAlgorithmPreferences::preset(),
    });

    let request = save_request_from_form(&mut form, None).ok().unwrap();

    assert!(matches!(request.proxy_chain[0].auth, SavedAuth::KeyboardInteractive));
}

#[test]
fn runtime_proxy_hops_are_prepended_without_cloning_the_connection_form() {
    let mut form = base_form();
    form.auth_tab = SshAuthTab::Agent;
    let mut form_hop = NewConnectionProxyHop::new();
    form_hop.host = "form-hop.example.com".to_string();
    form_hop.username = "form-user".to_string();
    form.proxy_hops.push(form_hop);

    let mut runtime_hop = NewConnectionProxyHop::new();
    runtime_hop.host = "runtime-hop.example.com".to_string();
    runtime_hop.username = "runtime-user".to_string();
    let mut prefix = vec![runtime_hop];
    let request =
        save_request_from_form_with_proxy_hop_prefix(&mut form, &mut prefix, None).ok().unwrap();

    assert_eq!(request.proxy_chain.len(), 2);
    assert_eq!(request.proxy_chain[0].host, "runtime-hop.example.com");
    assert_eq!(request.proxy_chain[1].host, "form-hop.example.com");
}

#[test]
fn viewing_saved_password_does_not_replace_stored_credential() {
    let existing = SavedAuth::Password {
        empty_password: false,
        keychain_id: Some("stored-owner".into()),
        plaintext_password: None,
    };
    let mut form = base_form();
    form.saved_password_keychain_id = Some("stored-owner".into());
    form.password = "revealed-test-value".into();
    form.password_from_store = true;
    form.password_loaded = true;
    let request = save_request_from_form_with_existing_auth(
        &mut form,
        Some("connection".into()),
        Some(&existing),
    )
    .ok()
    .unwrap();
    assert!(
        matches!(request.auth, SavedAuth::Password { keychain_id: Some(ref id), plaintext_password: None, .. } if id == "stored-owner")
    );
    password_draft_mut(&mut form).push_str("-edited");
    let edited = save_request_from_form_with_existing_auth(
        &mut form,
        Some("connection".into()),
        Some(&existing),
    )
    .ok()
    .unwrap();
    assert!(
        matches!(edited.auth, SavedAuth::Password { plaintext_password: Some(ref password), .. } if password.expose_secret() == "revealed-test-value-edited")
    );
    assert!(form.password.is_empty());
}
