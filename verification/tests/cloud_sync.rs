use oxideterm_workspace::workspace::cloud_sync_file::{
    export_name, suggested_export_name, CloudSyncFile, FilePicker, LocalFileEnd, LocalFileRefusal,
    LocalFileTask, LocalFileWork, PickedFile,
};

fn state() -> CloudSyncFile {
    CloudSyncFile {
        operation_in_flight: false,
        local_file_running: false,
        has_upload_selection: true,
        has_upload_preview: true,
        last_error: Some("old".to_string()),
    }
}

#[test]
fn exports_are_named_by_their_moment() {
    assert_eq!(export_name("20240102-030405"), "oxideterm-20240102-030405.oxide");
    assert_eq!(
        suggested_export_name(1_704_164_645).as_deref(),
        Some("oxideterm-20240102-030405.oxide")
    );
    assert_eq!(suggested_export_name(i64::MAX), None);
}

#[test]
fn only_one_file_is_worked_on_at_a_time() {
    let mut sync = state();
    let started = sync.start_cloud_sync_local_file(true, false, true, Ok(vec![1, 2]));
    let (task, secrets) = started.ok().unwrap();
    assert_eq!(secrets, vec![1, 2]);
    assert_eq!(task, LocalFileTask { exporting: true, preview_only: false, selection_only: true });
    assert_eq!(task.picker(), FilePicker::Save);
    assert!(matches!(
        sync.start_cloud_sync_local_file::<u8>(false, false, true, Ok(vec![])),
        Err(LocalFileRefusal::Busy)
    ));
    assert!(matches!(
        sync.finish_local_file::<()>(task, false, Ok(None)),
        LocalFileEnd::Exported
    ));
    assert!(!sync.has_upload_selection && !sync.has_upload_preview);
    assert!(sync.last_error.is_none());
    assert!(sync.can_start());
}

#[test]
fn a_start_fails_where_settings_or_secrets_do() {
    let mut sync = state();
    assert!(matches!(
        sync.start_cloud_sync_local_file::<u8>(true, false, false, Ok(vec![])),
        Err(LocalFileRefusal::NotKept)
    ));
    match sync.start_cloud_sync_local_file::<u8>(true, false, true, Err("locked".to_string())) {
        Err(LocalFileRefusal::Failed { action, error }) => {
            assert_eq!(action, "export");
            assert_eq!(error, "locked");
        }
        _ => panic!("the export cannot start"),
    }
    assert!(sync
        .start_cloud_sync_local_file::<u8>(false, true, true, Err("locked".to_string()))
        .is_ok());
}

#[test]
fn a_cancelled_export_changes_nothing() {
    let mut sync = state();
    let (task, _) = sync
        .start_cloud_sync_local_file::<u8>(true, false, true, Ok(vec![]))
        .ok()
        .unwrap();
    assert!(matches!(
        task.plan_work(PickedFile::Nothing, Ok(Some("pw".to_string()))),
        LocalFileWork::Cancelled
    ));
    assert!(matches!(
        sync.finish_local_file::<()>(task, true, Ok(None)),
        LocalFileEnd::Nothing
    ));
    assert!(sync.has_upload_selection && sync.has_upload_preview);
    assert_eq!(sync.last_error.as_deref(), Some("old"));
}

#[test]
fn work_needs_a_password_and_a_file() {
    let import = LocalFileTask { exporting: false, preview_only: false, selection_only: false };
    let failed = |work: LocalFileWork| match work {
        LocalFileWork::Failed(error) => error,
        _ => panic!("the work cannot be done"),
    };
    assert_eq!(
        failed(import.plan_work(PickedFile::File("f".to_string()), Ok(None))),
        "missing_sync_password: cloud sync password is required"
    );
    assert_eq!(
        failed(import.plan_work(PickedFile::File("f".to_string()), Ok(Some("".to_string())))),
        "missing_sync_password: cloud sync password is required"
    );
    assert_eq!(
        failed(import.plan_work(PickedFile::File("f".to_string()), Err("denied".to_string()))),
        "denied"
    );
    assert_eq!(
        failed(import.plan_work(PickedFile::Error("broken".to_string()), Ok(None))),
        "broken"
    );
    let preview = LocalFileTask { preview_only: true, ..import };
    assert_eq!(
        failed(preview.plan_work(PickedFile::Nothing, Ok(Some("pw".to_string())))),
        "missing local file"
    );
    assert_eq!(import.picker(), FilePicker::Open);
    match import.plan_work(PickedFile::File("f".to_string()), Ok(Some("pw".to_string()))) {
        LocalFileWork::Import { read_from, password } => {
            assert_eq!(read_from, "f");
            assert_eq!(password, "pw");
        }
        _ => panic!("the file is to be read"),
    }
    let export = LocalFileTask { exporting: true, preview_only: true, selection_only: false };
    assert_eq!(export.picker(), FilePicker::Unneeded);
    assert!(matches!(
        export.plan_work(PickedFile::Nothing, Ok(Some("pw".to_string()))),
        LocalFileWork::Export { write_to: None, .. }
    ));
}

#[test]
fn previews_go_where_they_belong() {
    let mut sync = state();
    let export = LocalFileTask { exporting: true, preview_only: true, selection_only: false };
    let import = LocalFileTask { exporting: false, preview_only: false, selection_only: false };
    assert!(matches!(
        sync.finish_local_file(export, false, Ok(Some(1))),
        LocalFileEnd::UploadPreview(1)
    ));
    assert!(matches!(
        sync.finish_local_file(import, false, Ok(Some(2))),
        LocalFileEnd::PullPreview(2)
    ));
    match sync.finish_local_file::<()>(import, false, Err("bad file".to_string())) {
        LocalFileEnd::Failed { action, error } => {
            assert_eq!(action, "import");
            assert_eq!(error, "bad file");
        }
        _ => panic!("the failure is shown"),
    }
}
