use oxideterm_workspace::workspace::backgrounds::{
    draws_content_background, ensure_bundled_workspace_backgrounds,
    is_bundled_workspace_background, workspace_background_object_fit, InstallStep, ObjectFit,
    TerminalBackgroundFit, WorkspaceWindowBackgroundEntity,
};
use oxideterm_workspace::workspace::paths::{
    default_ai_conversations_path, default_connections_path, default_saved_forwards_path,
    default_session_tree_path, PathPart,
};

fn path(parts: &[&str]) -> Vec<PathPart> {
    let mut all = vec![PathPart::Root];
    all.extend(parts.iter().map(|part| PathPart::Name(part.to_string())));
    all
}

fn written(parts: &[PathPart]) -> String {
    parts
        .iter()
        .map(|part| match part {
            PathPart::Root => "/".to_string(),
            PathPart::Name(name) => name.clone(),
            PathPart::Current => ".".to_string(),
            PathPart::Parent => "..".to_string(),
            PathPart::Prefix(prefix) => prefix.clone(),
        })
        .collect::<Vec<_>>()
        .join("|")
}

#[test]
fn recognizes_every_bundled_background_as_protected() {
    let directory = path(&["profile", "backgrounds"]);
    let mut installed = 0;
    while let InstallStep::Install(name) =
        ensure_bundled_workspace_backgrounds::<()>(installed, Ok(()))
    {
        assert!(is_bundled_workspace_background(
            &directory,
            &path(&["profile", "backgrounds", &name])
        ));
        installed += 1;
    }
    assert_eq!(installed, 3);
    assert!(!is_bundled_workspace_background(
        &directory,
        &path(&["profile", "backgrounds", "user-background.webp"])
    ));
    assert!(!is_bundled_workspace_background(
        &directory,
        &path(&["elsewhere", "backgrounds", "oxide-ambient-v1.png"])
    ));
    assert!(!is_bundled_workspace_background(&directory, &directory));
}

#[test]
fn installing_backgrounds_ends_with_the_first_failure() {
    assert!(matches!(
        ensure_bundled_workspace_backgrounds(1, Err("disk full")),
        InstallStep::Failed("disk full")
    ));
    assert!(matches!(ensure_bundled_workspace_backgrounds::<()>(3, Ok(())), InstallStep::Done));
}

#[test]
fn fits_are_drawn_as_chosen() {
    assert_eq!(workspace_background_object_fit(TerminalBackgroundFit::Cover), ObjectFit::Cover);
    assert_eq!(workspace_background_object_fit(TerminalBackgroundFit::Contain), ObjectFit::Contain);
    assert_eq!(workspace_background_object_fit(TerminalBackgroundFit::Fill), ObjectFit::Fill);
    assert_eq!(workspace_background_object_fit(TerminalBackgroundFit::Tile), ObjectFit::Natural);
}

#[test]
fn terminals_draw_their_own_background() {
    assert!(draws_content_background(Some("settings"), true));
    assert!(!draws_content_background(Some("settings"), false));
    assert!(!draws_content_background(Some("terminal"), true));
    assert!(!draws_content_background(Some("local_terminal"), true));
    assert!(!draws_content_background(None, true));
}

#[test]
fn retired_images_are_dropped_once() {
    let mut background = WorkspaceWindowBackgroundEntity {
        retired: vec!["a", "b"],
        byte_limit: 0,
        decode_timer_running: false,
    };
    assert_eq!(background.drop_retired_images(), vec!["a", "b"]);
    assert!(background.drop_retired_images().is_empty());
}

#[test]
fn one_timer_waits_for_the_decoder() {
    let mut background = WorkspaceWindowBackgroundEntity {
        retired: vec![1],
        byte_limit: 0,
        decode_timer_running: false,
    };
    assert_eq!(background.render_layer(10, true), (vec![1], true));
    assert_eq!(background.byte_limit, 10);
    assert!(!background.schedule_decode_completion());
    background.retired.push(2);
    let (step, dropped) = background.on_decode_timer(true, false);
    assert!(step.redraw && !step.start_timer);
    assert_eq!(dropped, vec![2]);
    assert!(!background.decode_timer_running);
}

#[test]
fn files_are_kept_beside_the_settings() {
    let settings = path(&["home", "settings.json"]);
    assert_eq!(written(&default_connections_path(&settings)), "/|home|connections.json");
    assert_eq!(written(&default_saved_forwards_path(&settings)), "/|home|forwards.json");
    assert_eq!(written(&default_session_tree_path(&settings)), "/|home|session_tree.json");
    assert_eq!(written(&default_ai_conversations_path(&settings)), "/|home|chat_history.redb");
    assert_eq!(written(&default_connections_path(&vec![])), ".|connections.json");
    assert_eq!(written(&default_connections_path(&vec![PathPart::Root])), ".|connections.json");
}
