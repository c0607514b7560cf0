use handshaker_core::domain::{RemoteFile, SyncConfig, SyncDiff, SyncFileRecord, SyncRunResult};
use handshaker_core::error::{ConfigFault, Error, ProtocolFault};
use handshaker_core::events::{FileChange, FileChangeStatus};
use handshaker_core::journal::{PendingSyncAction, RecoveryAction, SyncJournal};
use handshaker_core::snapshot::SyncSnapshot;
use handshaker_core::store::{
    accept_legacy, ledger_key, pc_id_from_host_uuid, sanitize_device_uuid, sync_config, LedgerSource, SyncStore,
};
use handshaker_core::sync::{
    apply_info_modified, check_conflicts, conflict_probes, file_change_step, forget_deleted, local_destination,
    plan_diff, record_download, FileChangeStep,
};

fn config(local_root: &str) -> SyncConfig {
    SyncConfig {
        device_uuid: "d".to_string(),
        phone_root: "/storage/emulated/0/DCIM/Camera".to_string(),
        local_root: local_root.to_string(),
        pc_id: "hs-abc".to_string(),
    }
}

fn phone_file_help(path: &str, checksum: &str, ext_data: Option<&str>) -> RemoteFile {
    RemoteFile {
        path: path.to_string(),
        size: 10,
        created_at: None,
        modified_at: Some(1),
        is_directory: false,
        checksum: Some(checksum.to_string()),
        is_trash: None,
        id: None,
        ext_data: ext_data.map(str::to_string),
    }
}

fn record(checksum: &str, local: &str) -> SyncFileRecord {
    SyncFileRecord {
        size: 10,
        checksum: Some(checksum.to_string()),
        ext_data: None,
        modified_at: Some(1),
        local_path: local.to_string(),
        local_sha256: Some("x".to_string()),
    }
}

fn empty_diff() -> SyncDiff {
    SyncDiff { added: vec![], info_modified: vec![], deleted: vec![], conflicts: vec![] }
}

#[test]
fn plan_diffs_added_modified_info_and_deleted() {
    let mut snapshot = SyncSnapshot::new();
    snapshot.insert("/storage/emulated/0/DCIM/Camera/keep.jpg".to_string(), record("same", "/tmp/keep.jpg"));
    snapshot.insert("/storage/emulated/0/DCIM/Camera/mod.jpg".to_string(), record("old", "/tmp/mod.jpg"));
    snapshot.insert("/storage/emulated/0/DCIM/Camera/meta.jpg".to_string(), record("same", "/tmp/meta.jpg"));
    snapshot.insert("/storage/emulated/0/DCIM/Camera/gone.jpg".to_string(), record("same", "/tmp/gone.jpg"));
    let phone = vec![
        phone_file_help("/storage/emulated/0/DCIM/Camera/new.jpg", "c-new", None),
        phone_file_help("/storage/emulated/0/DCIM/Camera/keep.jpg", "same", None),
        phone_file_help("/storage/emulated/0/DCIM/Camera/mod.jpg", "new-checksum", None),
        phone_file_help("/storage/emulated/0/DCIM/Camera/meta.jpg", "same", Some(r#"{"star":true}"#)),
    ];
    let diff = plan_diff(&phone, &snapshot);
    assert_eq!(
        diff.added,
        vec!["/storage/emulated/0/DCIM/Camera/new.jpg", "/storage/emulated/0/DCIM/Camera/mod.jpg"]
    );
    assert_eq!(diff.info_modified, vec!["/storage/emulated/0/DCIM/Camera/meta.jpg"]);
    assert_eq!(diff.deleted, vec!["/storage/emulated/0/DCIM/Camera/gone.jpg"]);
    assert!(diff.conflicts.is_empty());
}

#[test]
fn local_destination_rejects_escapes() {
    let config = config("/tmp/out");
    let ok = local_destination(&config, "/storage/emulated/0/DCIM/Camera/a.jpg").expect("ok");
    assert_eq!(ok, "/tmp/out/a.jpg");
    let escape = local_destination(&config, "/storage/emulated/0/DCIM/Camera/../x.jpg");
    assert_eq!(escape, Err(Error::Protocol(ProtocolFault::PathOutsideRoot)));
    let outside = local_destination(&config, "/storage/emulated/0/DCIM/Other/x.jpg");
    assert_eq!(outside, Err(Error::Protocol(ProtocolFault::PathOutsideRoot)));
}

#[test]
fn conflicts_flag_user_modified_local_files() {
    let mut snapshot = SyncSnapshot::new();
    let mut rec = record("c", "/tmp/edited.jpg");
    rec.local_sha256 = Some("hash-of-original".to_string());
    snapshot.insert("/storage/emulated/0/DCIM/Camera/edited.jpg".to_string(), rec);
    let mut diff = empty_diff();
    diff.added = vec!["/storage/emulated/0/DCIM/Camera/edited.jpg".to_string()];
    let probes = conflict_probes(&diff, &snapshot);
    assert_eq!(probes.len(), 1);
    assert_eq!(probes[0].local_path, "/tmp/edited.jpg");
    assert_eq!(probes[0].expected_sha256, "hash-of-original");
    let conflicts = check_conflicts(&diff, &snapshot, &[Some("hash-of-user-edit".to_string())]);
    assert_eq!(conflicts, vec!["/storage/emulated/0/DCIM/Camera/edited.jpg"]);
    let unchanged = check_conflicts(&diff, &snapshot, &[Some("hash-of-original".to_string())]);
    assert!(unchanged.is_empty());
    let missing = check_conflicts(&diff, &snapshot, &[None]);
    assert!(missing.is_empty());
}

#[test]
fn replanning_after_recording_downloads_is_empty() {
    let phone = vec![phone_file_help("/storage/emulated/0/DCIM/Camera/a.jpg", "c-a", None)];
    let mut snapshot = SyncSnapshot::new();
    let diff = plan_diff(&phone, &snapshot);
    assert_eq!(diff.added, vec!["/storage/emulated/0/DCIM/Camera/a.jpg"]);
    let mut result = SyncRunResult::new();
    record_download(
        &mut snapshot,
        &mut result,
        &diff.added[0],
        &phone[0],
        Some(("/tmp/out/a.jpg".to_string(), "sha".to_string())),
    );
    assert_eq!(result.downloaded, vec!["/storage/emulated/0/DCIM/Camera/a.jpg"]);
    let rerun = plan_diff(&phone, &snapshot);
    assert!(rerun.added.is_empty());
    assert!(rerun.info_modified.is_empty());
    assert!(rerun.deleted.is_empty());
}

#[test]
fn info_modified_refreshes_phone_metadata_only() {
    let mut snapshot = SyncSnapshot::new();
    snapshot.insert("/storage/emulated/0/DCIM/Camera/meta.jpg".to_string(), record("same", "/tmp/meta.jpg"));
    let phone = vec![phone_file_help("/storage/emulated/0/DCIM/Camera/meta.jpg", "same", Some("{}"))];
    let diff = plan_diff(&phone, &snapshot);
    apply_info_modified(&mut snapshot, &phone, &diff);
    let rec = snapshot.get("/storage/emulated/0/DCIM/Camera/meta.jpg").expect("kept");
    assert_eq!(rec.ext_data.as_deref(), Some("{}"));
    assert_eq!(rec.local_path, "/tmp/meta.jpg");
    assert_eq!(rec.local_sha256.as_deref(), Some("x"));
}

#[test]
fn file_change_steps_follow_the_change_state() {
    let config = config("/tmp/out");
    let mut snapshot = SyncSnapshot::new();
    let live = phone_file_help("/storage/emulated/0/DCIM/Camera/live.jpg", "c-live", None);
    let added = FileChange { file: Some(live.clone()), status: FileChangeStatus::Added };
    assert_eq!(
        file_change_step(&config, &added, &snapshot),
        Ok(FileChangeStep::Download { destination: "/tmp/out/live.jpg".to_string() })
    );
    let deleted = FileChange { file: Some(live.clone()), status: FileChangeStatus::Deleted };
    assert_eq!(file_change_step(&config, &deleted, &snapshot), Ok(FileChangeStep::Nothing));
    snapshot.insert(live.path.clone(), record("c-live", "/tmp/out/live.jpg"));
    assert_eq!(
        file_change_step(&config, &deleted, &snapshot),
        Ok(FileChangeStep::Delete { local_path: "/tmp/out/live.jpg".to_string() })
    );
    let info = FileChange { file: Some(live.clone()), status: FileChangeStatus::InfoModified };
    assert_eq!(file_change_step(&config, &info, &snapshot), Ok(FileChangeStep::Refresh));
    let none = FileChange { file: None, status: FileChangeStatus::Added };
    assert_eq!(file_change_step(&config, &none, &snapshot), Ok(FileChangeStep::Nothing));
    let mut result = SyncRunResult::new();
    forget_deleted(&mut snapshot, &mut result, &live.path, true);
    assert_eq!(result.deleted, vec!["/storage/emulated/0/DCIM/Camera/live.jpg"]);
    assert_eq!(snapshot.len(), 0);
}

#[test]
fn pc_id_is_stable_and_matches_mac_uu_semantics() {
    let uuid = "11111111-1111-1111-1111-111111111111";
    let a = pc_id_from_host_uuid(uuid);
    let b = pc_id_from_host_uuid(uuid);
    let c = pc_id_from_host_uuid("22222222-2222-2222-2222-222222222222");
    assert_eq!(a, b);
    assert_ne!(a, c);
    assert_eq!(a, uuid);
    assert!(SyncConfig {
        device_uuid: "d".to_string(),
        phone_root: "/p".to_string(),
        local_root: "/l".to_string(),
        pc_id: a.clone(),
    }
    .pc_id
    .eq(uuid));
    let config = sync_config("d", "/p", "/l", uuid);
    assert_eq!(config.pc_id, uuid);
}

#[test]
fn ledger_key_is_lossless_and_distinct() {
    let a = ledger_key("abc:def");
    let b = ledger_key("abc/def");
    let c = ledger_key("abcdef");
    assert_eq!(a.len(), 64);
    assert_ne!(a, b);
    assert_ne!(a, c);
    assert_ne!(b, c);
    assert_eq!(ledger_key("abcdef"), c);
    assert!(a.chars().all(|character| character.is_ascii_hexdigit()));
    assert_eq!(
        ledger_key(""),
        "e3b0c44298fc1c149afbf4c8996fb92427ae41e4649b934ca495991b7852b855"
    );
}

#[test]
fn discover_uses_lossless_hash_filename() {
    let store = SyncStore::discover("/cfg", "../state");
    assert_eq!(store.path(), format!("/cfg/sync/{}.json", ledger_key("../state")));
    let store_b = SyncStore::discover("/cfg", "abcdef");
    assert_ne!(store.path(), store_b.path());
}

#[test]
fn device_uuid_is_still_sanitized_for_legacy_path_probing() {
    let store = SyncStore::discover("/cfg", "../state");
    assert!(store.path().contains("sync/"));
    assert!(sanitize_device_uuid("a/b..c\\d e")
        .chars()
        .all(|character| character.is_ascii_alphanumeric() || character == '-' || character == '_'));
    assert_eq!(SyncStore::legacy_v1_path("/cfg/sync", "../state"), "/cfg/sync/state.json");
    assert_eq!(store.legacy_path(), "/cfg/sync/state.json");
}

#[test]
fn ledger_loading_prefers_current_and_guards_legacy_identity() {
    let lossless = SyncStore::discover("/cfg", "e976ce6596c81fc5");
    assert_eq!(lossless.load(true, true), Ok(LedgerSource::Current));
    assert_eq!(lossless.load(false, false), Ok(LedgerSource::Absent));
    assert_eq!(
        lossless.load(false, true),
        Ok(LedgerSource::Legacy("/cfg/sync/e976ce6596c81fc5.json".to_string()))
    );
    assert_eq!(lossless.legacy_backup_path(), "/cfg/sync/e976ce6596c81fc5.json.legacy.bak");
    let lossy = SyncStore::discover("/cfg", "abc:def");
    assert_eq!(
        lossy.load(false, true),
        Err(Error::Configuration(ConfigFault::LegacyIdentityUnverified))
    );
}

#[test]
fn tampered_or_foreign_ledgers_are_refused() {
    let store = SyncStore::discover("/cfg", "dev");
    assert_eq!(
        store.accept_current(2, "other-device", SyncSnapshot::new()).unwrap_err(),
        Error::Configuration(ConfigFault::IdentityMismatch)
    );
    assert_eq!(
        store.accept_current(99, "dev", SyncSnapshot::new()).unwrap_err(),
        Error::Configuration(ConfigFault::VersionUnsupported)
    );
    assert!(store.accept_current(2, "dev", SyncSnapshot::new()).is_ok());
    assert!(accept_legacy(1, SyncSnapshot::new()).is_ok());
    assert_eq!(
        accept_legacy(3, SyncSnapshot::new()).unwrap_err(),
        Error::Configuration(ConfigFault::VersionUnsupported)
    );
}

fn sample_record() -> SyncFileRecord {
    SyncFileRecord {
        size: 10,
        checksum: None,
        ext_data: None,
        modified_at: None,
        local_path: "/a.jpg".to_string(),
        local_sha256: None,
    }
}

fn download_action(final_path: &str, staged: &str) -> PendingSyncAction {
    PendingSyncAction::Download {
        remote_path: "/a.jpg".to_string(),
        final_path: final_path.to_string(),
        staged_path: staged.to_string(),
        new_record: sample_record(),
    }
}

fn delete_action() -> PendingSyncAction {
    PendingSyncAction::Delete {
        remote_path: "/a.jpg".to_string(),
        original_path: "/tmp/a.jpg".to_string(),
        trash_path: "/tmp/a.jpg.hs-trash.1".to_string(),
    }
}

#[test]
fn journal_lives_next_to_its_ledger() {
    assert_eq!(SyncJournal::for_ledger("/cfg/sync/key.json").path(), "/cfg/sync/key.journal.json");
    assert_eq!(SyncJournal::for_ledger("key.json").path(), "key.journal.json");
    assert_eq!(SyncJournal::for_ledger("/").path(), "/ledger.journal.json");
    assert_eq!(SyncJournal::for_ledger("/cfg/x.txt").path(), "/cfg/x.txt.journal.json");
}

#[test]
fn empty_journal_recover_is_noop() {
    let journal = SyncJournal::for_ledger("/cfg/sync/key.json");
    let mut snapshot = SyncSnapshot::new();
    snapshot.insert("/a.jpg".to_string(), sample_record());
    let step = journal.recover(&None, &snapshot, false, false).expect("nothing to do");
    assert_eq!(step.action, RecoveryAction::Done);
    assert_eq!(step.snapshot, snapshot);
}

#[test]
fn download_recover_finishes_rename_and_records() {
    let journal = SyncJournal::for_ledger("/cfg/sync/key.json");
    let action = download_action("/tmp/a.jpg", "/tmp/a.jpg.hs-part.1");
    let snapshot = SyncSnapshot::new();
    let step = journal.recover(&Some(action.clone()), &snapshot, false, true).expect("rename");
    assert_eq!(step.action, RecoveryAction::RenameStaged);
    assert_eq!(step.snapshot.len(), 0);
    let step = journal.recover(&Some(action.clone()), &snapshot, true, false).expect("record");
    assert_eq!(step.action, RecoveryAction::SaveAndClear);
    assert!(step.snapshot.get("/a.jpg").is_some());
}

#[test]
fn download_recover_drops_unlanded_action() {
    let journal = SyncJournal::for_ledger("/cfg/sync/key.json");
    let action = download_action("/tmp/a.jpg", "/tmp/never-was");
    let step = journal.recover(&Some(action.clone()), &SyncSnapshot::new(), false, false).expect("drop");
    assert_eq!(step.action, RecoveryAction::Clear);
    assert_eq!(step.snapshot.len(), 0);
}

#[test]
fn delete_recover_abandons_before_rename_and_removes_orphan_trash() {
    let journal = SyncJournal::for_ledger("/cfg/sync/key.json");
    let mut snapshot = SyncSnapshot::new();
    snapshot.insert("/a.jpg".to_string(), sample_record());
    let step = journal.recover(&Some(delete_action()), &snapshot, true, false).expect("abandon");
    assert_eq!(step.action, RecoveryAction::Clear);
    assert!(step.snapshot.get("/a.jpg").is_some());
    let step = journal.recover(&Some(delete_action()), &snapshot, true, true).expect("orphan");
    assert_eq!(step.action, RecoveryAction::RemoveTrash);
}

#[test]
fn delete_recover_after_rename_finishes_removal() {
    let journal = SyncJournal::for_ledger("/cfg/sync/key.json");
    let mut snapshot = SyncSnapshot::new();
    snapshot.insert("/a.jpg".to_string(), sample_record());
    let step = journal.recover(&Some(delete_action()), &snapshot, false, true).expect("trash");
    assert_eq!(step.action, RecoveryAction::RemoveTrash);
    let step = journal.recover(&Some(delete_action()), &snapshot, false, false).expect("gone");
    assert_eq!(step.action, RecoveryAction::SaveAndClear);
    assert!(step.snapshot.get("/a.jpg").is_none());
}

#[test]
fn recover_rejects_unsafe_journal_paths() {
    let journal = SyncJournal::for_ledger("/cfg/sync/key.json");
    let action = download_action("../escape/a.jpg", "/tmp/a.jpg.hs-part.1");
    assert_eq!(
        journal.recover(&Some(action.clone()), &SyncSnapshot::new(), true, true).unwrap_err(),
        Error::Configuration(ConfigFault::JournalUnsafe)
    );
    let action = download_action("/tmp/../etc/a.jpg", "/tmp/a.jpg.hs-part.1");
    assert!(journal.recover(&Some(action.clone()), &SyncSnapshot::new(), true, true).is_err());
}
