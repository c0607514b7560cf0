use handshaker_core::domain::RemoteFile;
use handshaker_core::events::{
    directory_change, file_change, FileChangeStatus, FileEventKind, SspFileChangeItem, SspFileChangeStatus,
    SspFileEvent, SspFileEventType,
};
use handshaker_core::remote::SspFile;

fn phone_dir() -> SspFile {
    SspFile {
        path: Some("/sdcard/DCIM".to_string()),
        file_size: Some(4096),
        created_timestamp: Some(1),
        modified_timestamp: Some(2),
        is_directory: Some(true),
        checksum: Some("abc".to_string()),
        is_trash: Some(false),
        id: Some(7),
        ext_data: Some("x".to_string()),
        succeed: None,
        error_code: None,
    }
}

fn public_dir() -> RemoteFile {
    RemoteFile {
        path: "/sdcard/DCIM".to_string(),
        size: 4096,
        created_at: Some(1),
        modified_at: Some(2),
        is_directory: true,
        checksum: Some("abc".to_string()),
        is_trash: Some(false),
        id: Some(7),
        ext_data: Some("x".to_string()),
    }
}

#[test]
fn directory_events_carry_every_file_field() {
    let events = vec![
        SspFileEvent { file: Some(phone_dir()), event: Some(SspFileEventType::FileEventCreate) },
        SspFileEvent { file: None, event: None },
    ];
    let out = directory_change(events);
    assert_eq!(out.len(), 2);
    assert_eq!(out[0].kind, FileEventKind::Create);
    assert_eq!(out[0].file, Some(public_dir()));
    assert_eq!(out[1].kind, FileEventKind::Unknown);
    assert_eq!(out[1].file, None);
}

#[test]
fn file_changes_carry_every_file_field() {
    let items = vec![SspFileChangeItem { file: Some(phone_dir()), status: Some(SspFileChangeStatus::InfoModified) }];
    let out = file_change(items);
    assert_eq!(out.len(), 1);
    assert_eq!(out[0].status, FileChangeStatus::InfoModified);
    assert_eq!(out[0].file, Some(public_dir()));
}
