use oxideterm_workspace::workspace::ssh_algorithms::{
    available_algorithms, baseline_algorithms, customized_category_count, reorder_algorithm,
    EditorKey, SshAlgorithmCategory, SshAlgorithmEditor, SshAlgorithmOffer,
    SshAlgorithmPreferences, SshCapabilityReport,
};

fn names(list: &[&str]) -> Vec<String> {
    list.iter().map(|name| name.to_string()).collect()
}

#[test]
fn drag_reordering_moves_one_algorithm_without_swapping_neighbors() {
    let mut algorithms = names(&["a", "b", "c", "d"]);
    reorder_algorithm(&mut algorithms, "a", 2);
    assert_eq!(algorithms, names(&["b", "c", "a", "d"]));
    reorder_algorithm(&mut algorithms, "d", 0);
    assert_eq!(algorithms, names(&["d", "b", "c", "a"]));
}

fn offer(kex: &[&str], mac: &[&str]) -> SshAlgorithmOffer {
    SshAlgorithmOffer {
        kex: names(kex),
        host_key_algorithms: names(&["ssh-ed25519"]),
        ciphers: names(&["aes256-ctr"]),
        macs: names(mac),
        compression: names(&["none"]),
    }
}

fn report() -> SshCapabilityReport {
    SshCapabilityReport {
        default_offer: offer(&["k1", "k2"], &["m1"]),
        legacy_compatibility_offer: offer(&["k1", "k2", "k3"], &["m1", "hmac-sha1"]),
    }
}

fn editor() -> SshAlgorithmEditor {
    SshAlgorithmEditor {
        open: false,
        preferences: SshAlgorithmPreferences::preset(),
        legacy_compatibility: false,
        category: SshAlgorithmCategory::Kex,
        selected: None,
        menu: None,
        field_focused: true,
    }
}

#[test]
fn presets_come_from_the_report() {
    let report = report();
    assert_eq!(
        baseline_algorithms(&report, true, SshAlgorithmCategory::Mac),
        names(&["m1", "hmac-sha1"])
    );
    assert_eq!(
        available_algorithms(&report, SshAlgorithmCategory::Kex, &names(&["k2"])),
        names(&["k1", "k3"])
    );
    let editor = editor();
    assert_eq!(customized_category_count(&editor.preferences), 0);
    assert_eq!(editor.navigation_status().key, "ssh.form.ssh_algorithms_default");
    let row = editor.category_row(&report, SshAlgorithmCategory::Kex);
    assert_eq!(row.count, 2);
    assert!(row.active);
    let detail = editor.detail_column(&report);
    assert!(detail.inherited);
    assert!(detail.rows[0].checked);
}

#[test]
fn a_category_is_edited_by_itself() {
    let report = report();
    let mut editor = editor();
    editor.open_editor();
    editor.follow_preset(&report, false);
    assert_eq!(editor.preferences.kex, names(&["k1", "k2"]));
    editor.add_ssh_algorithm(&report, SshAlgorithmCategory::Kex, "k3".to_string());
    editor.add_ssh_algorithm(&report, SshAlgorithmCategory::Kex, "k3".to_string());
    assert_eq!(editor.preferences.kex, names(&["k1", "k2", "k3"]));
    editor.move_ssh_algorithm(&report, SshAlgorithmCategory::Kex, "k3", false);
    assert_eq!(editor.preferences.kex, names(&["k1", "k3", "k2"]));
    editor.move_ssh_algorithm(&report, SshAlgorithmCategory::Kex, "k3", true);
    editor.move_ssh_algorithm(&report, SshAlgorithmCategory::Kex, "k3", true);
    assert_eq!(editor.preferences.kex, names(&["k1", "k2", "k3"]));
    editor.drop_algorithm(SshAlgorithmCategory::Mac, "k1".to_string(), "k3");
    assert_eq!(editor.preferences.kex, names(&["k1", "k2", "k3"]));
    editor.drop_algorithm(SshAlgorithmCategory::Kex, "k1".to_string(), "k3");
    assert_eq!(editor.preferences.kex, names(&["k2", "k3", "k1"]));
    assert_eq!(editor.selected.as_deref(), Some("k1"));
    editor.open_menu("k2".to_string());
    let menu = editor.context_menu().unwrap();
    assert!(!menu.can_move_up);
    assert!(menu.can_move_down);
    editor.use_menu(&report, SshAlgorithmCategory::Kex, "k2", true);
    assert!(editor.context_menu().is_none());
    assert_eq!(editor.preferences.kex, names(&["k3", "k2", "k1"]));
    for name in ["k3", "k2", "k1"] {
        editor.remove_ssh_algorithm(&report, SshAlgorithmCategory::Kex, name);
    }
    assert_eq!(editor.preferences.kex, names(&["k1"]));
    assert_eq!(editor.navigation_status().key, "ssh.form.ssh_algorithms_custom_count");
    assert!(editor.preferences.mac.is_empty());
    editor.select_category(SshAlgorithmCategory::Mac);
    assert!(editor.selected.is_none());
    editor.close_editor();
    assert!(!editor.open);
}

#[test]
fn keys_walk_and_toggle() {
    let report = report();
    let mut editor = editor();
    assert!(!editor.handle_ssh_algorithm_key(&report, EditorKey::Down, false));
    editor.open_editor();
    editor.follow_preset(&report, false);
    editor.select_row("k1".to_string());
    assert!(editor.handle_ssh_algorithm_key(&report, EditorKey::Down, false));
    assert_eq!(editor.selected.as_deref(), Some("k2"));
    assert!(editor.handle_ssh_algorithm_key(&report, EditorKey::Up, true));
    assert_eq!(editor.preferences.kex, names(&["k2", "k1"]));
    assert!(editor.handle_ssh_algorithm_key(&report, EditorKey::Space, false));
    assert_eq!(editor.preferences.kex, names(&["k1"]));
    assert!(!editor.handle_ssh_algorithm_key(&report, EditorKey::Other, false));
    editor.open_menu("k1".to_string());
    assert!(editor.handle_ssh_algorithm_key(&report, EditorKey::Escape, false));
    assert!(editor.open);
    assert!(editor.handle_ssh_algorithm_key(&report, EditorKey::Escape, false));
    assert!(!editor.open);
}
