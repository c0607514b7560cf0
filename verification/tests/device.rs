use std::io::Write;

use handshaker_core::discovery::{instance_name, resolved_to_device, ResolvedService, ServiceAddress, WifiDeviceTable};
use handshaker_core::domain::RemoteFile;
use handshaker_core::error::{Error, LocalFault, ProtocolFault, TransportFault, UsageFault};
use handshaker_core::events::{
    clipboard_change, decode_cancel, decode_clipboard, decode_event, device_info, infer_event, CancelMessage,
    DeviceInfoResponse, EventFamily, FamilyProbe, PushDecision, PushProbe, RequestKind, SspClipboard,
    UnknownEventReason,
};
use handshaker_core::exif_time::{days_from_civil, exif_datetime_to_unix};
use handshaker_core::remote::{
    check_download_checksum, check_upload, ensure_deleted_files_succeeded, FILE_IO_TARGET_ALREADY_EXIST, plan_download_tree, remote_child, split_remote_path,
    temporary_download_path_with, upload_directory_order, SspFile,
};
use handshaker_core::thumbnails::{cache_path_for, fnv1a64, image_cache_revision, sanitize_cache_component};
use handshaker_core::usb::{
    accessory_endpoints, fill_buffer, select_accessory, usb_error, usb_location, EndpointInfo, InterfaceSetting,
    UsbAccessory, AccessoryMode, UsbErrorKind, ACCESSORY_IFACE_CLASS, ACCESSORY_IFACE_SUBCLASS, ACCESSORY_PIDS,
    ACCESSORY_VID,
};

#[test]
fn splits_remote_paths() {
    assert_eq!(split_remote_path("/a/b").expect("path"), ("/a".to_string(), "b".to_string()));
    assert_eq!(split_remote_path("/a").expect("path"), ("/".to_string(), "a".to_string()));
}

#[test]
fn rejects_remote_directory_without_name() {
    assert!(split_remote_path("/a/").is_err());
    assert_eq!(
        split_remote_path("nodir"),
        Err(Error::Usage(UsageFault::RemotePathDirectoryRequired))
    );
}

fn ssp(path: &str, succeed: Option<bool>, error_code: Option<i32>) -> SspFile {
    SspFile {
        path: Some(path.to_string()),
        file_size: None,
        created_timestamp: None,
        modified_timestamp: None,
        is_directory: None,
        checksum: None,
        is_trash: None,
        id: None,
        ext_data: None,
        succeed,
        error_code,
    }
}

/// The phone's permission-error code used in these fixtures.
const PERMISSION_ERROR: i32 = 3;

#[test]
fn partial_delete_failure_is_not_reported_as_success() {
    let files = vec![ssp("/ok", Some(true), None), ssp("/failed", Some(false), Some(PERMISSION_ERROR))];
    let error = ensure_deleted_files_succeeded(&files).expect_err("partial failure");
    assert!(matches!(error, Error::RemoteIo { code: Some(code) } if code == PERMISSION_ERROR));
}

#[test]
fn instance_name_splits_at_first_dot() {
    assert_eq!(instance_name("handshaker_ssp_._handshaker_ssp._tcp.local."), "handshaker_ssp_");
    assert_eq!(instance_name("no-dot-here"), "no-dot-here");
}

fn resolved(fullname: &str, host: &str, port: u16, addresses: Vec<(bool, &str)>) -> ResolvedService {
    ResolvedService {
        fullname: fullname.to_string(),
        host: host.to_string(),
        addresses: addresses
            .into_iter()
            .map(|(is_v4, text)| ServiceAddress { is_v4, text: text.to_string() })
            .collect(),
        port,
        txt: vec![("note".to_string(), "ssp".to_string())],
    }
}

#[test]
fn resolved_service_maps_to_public_model() {
    let service = resolved(
        "handshaker_ssp_._handshaker_ssp._tcp.local.",
        "fixture-phone.local.",
        45656,
        vec![(false, "::1"), (true, "192.0.2.47")],
    );
    let device = resolved_to_device(&service);
    assert_eq!(device.instance, "handshaker_ssp_");
    assert_eq!(device.host, "fixture-phone.local");
    assert_eq!(device.port, 45656);
    assert_eq!(device.addresses, vec!["192.0.2.47".to_string(), "::1".to_string()]);
    assert_eq!(device.txt, vec![("note".to_string(), "ssp".to_string())]);
}

#[test]
fn latest_resolution_per_host_wins_and_distinct_hosts_are_kept() {
    let mut table = WifiDeviceTable::new();
    table.record(&resolved("handshaker_ssp_._handshaker_ssp._tcp.local.", "fixture-phone.local.", 1000, vec![(true, "192.0.2.47")]));
    table.record(&resolved("handshaker_ssp_._handshaker_ssp._tcp.local.", "fixture-phone.local.", 2000, vec![(true, "192.0.2.47")]));
    table.record(&resolved("handshaker_ssp_._handshaker_ssp._tcp.local.", "fixture-phone-b.local.", 3000, vec![(true, "192.0.2.48")]));
    let devices = table.into_devices();
    assert_eq!(devices.len(), 2, "two distinct phones must both appear");
    assert_eq!(devices.iter().find(|d| d.host == "fixture-phone.local").expect("device").port, 2000);
    assert!(devices.iter().any(|device| device.host == "fixture-phone-b.local"));
}

fn probe(request_type: Option<i32>, known: Option<RequestKind>) -> PushProbe {
    let off = FamilyProbe { decodes: false, populated: false };
    PushProbe {
        request_type,
        known,
        device_info: off,
        clipboard: off,
        photo: off,
        video: off,
        audio: off,
        directory: off,
        file_change: off,
        photo_sync: off,
        sync_monitor: off,
    }
}

fn with_family(mut p: PushProbe, family: EventFamily, fp: FamilyProbe) -> PushProbe {
    match family {
        EventFamily::DeviceInfo => p.device_info = fp,
        EventFamily::Clipboard => p.clipboard = fp,
        EventFamily::PhotoLibrary => p.photo = fp,
        EventFamily::VideoLibrary => p.video = fp,
        EventFamily::AudioLibrary => p.audio = fp,
        EventFamily::Directory => p.directory = fp,
        EventFamily::FileChange => p.file_change = fp,
        EventFamily::PhotoSync => p.photo_sync = fp,
        EventFamily::SyncMonitor => p.sync_monitor = fp,
    }
    p
}

#[test]
fn decodes_device_info_event_with_type() {
    let p = with_family(
        probe(Some(1), Some(RequestKind::Family(EventFamily::DeviceInfo))),
        EventFamily::DeviceInfo,
        FamilyProbe { decodes: true, populated: true },
    );
    assert_eq!(decode_event(&p), PushDecision::Event(EventFamily::DeviceInfo));
    let message = DeviceInfoResponse {
        phone_id: None,
        phone_name: Some("phone".to_string()),
        phone_model: None,
        product_brand: None,
        product_manufacturer: None,
        smartisan_version: None,
        apk_version: None,
        apk_version_name: Some("9.9".to_string()),
        root_path: None,
        external_storage_path: None,
        disk_size: None,
        used_disk_size: None,
        battery_percentage: None,
        phone_locked: None,
    };
    let info = device_info(&message, "serial");
    assert_eq!(info.serial, "serial");
    assert_eq!(info.name.as_deref(), Some("phone"));
    assert_eq!(info.root_path, "/sdcard");
    assert_eq!(info.apk_version_name, None);
}

#[test]
fn decodes_each_supported_typed_event_family() {
    let families = [
        EventFamily::Clipboard,
        EventFamily::PhotoLibrary,
        EventFamily::VideoLibrary,
        EventFamily::AudioLibrary,
        EventFamily::Directory,
        EventFamily::PhotoSync,
        EventFamily::FileChange,
        EventFamily::SyncMonitor,
    ];
    for family in families {
        let p = with_family(
            probe(Some(1), Some(RequestKind::Family(family))),
            family,
            FamilyProbe { decodes: true, populated: false },
        );
        assert_eq!(decode_event(&p), PushDecision::Event(family));
    }
}

#[test]
fn unknown_event_contains_only_safe_metadata() {
    let p = probe(Some(999), None);
    assert_eq!(decode_event(&p), PushDecision::Unknown(UnknownEventReason::UnknownRequestType));
    let p = probe(Some(5), Some(RequestKind::Family(EventFamily::PhotoSync)));
    assert_eq!(decode_event(&p), PushDecision::Unknown(UnknownEventReason::DecodeFailed));
    let p = probe(Some(7), Some(RequestKind::Cancel));
    assert_eq!(decode_event(&p), PushDecision::Unknown(UnknownEventReason::DecodeFailed));
}

#[test]
fn untyped_bodies_are_events_only_when_exactly_one_family_matches() {
    let on = FamilyProbe { decodes: true, populated: true };
    let one = with_family(probe(None, None), EventFamily::Clipboard, on);
    assert_eq!(infer_event(&one), Some(EventFamily::Clipboard));
    assert_eq!(decode_event(&one), PushDecision::Event(EventFamily::Clipboard));
    let two = with_family(one, EventFamily::PhotoSync, on);
    assert_eq!(infer_event(&two), None);
    assert_eq!(decode_event(&two), PushDecision::Unknown(UnknownEventReason::MissingTypeAmbiguous));
    let empty = with_family(probe(None, None), EventFamily::Clipboard, FamilyProbe { decodes: true, populated: false });
    assert_eq!(infer_event(&empty), None);
}

fn gzip(text: &str) -> Vec<u8> {
    let mut encoder = flate2::write::GzEncoder::new(Vec::new(), flate2::Compression::default());
    encoder.write_all(text.as_bytes()).unwrap();
    encoder.finish().unwrap()
}

#[test]
fn infers_clipboard_event_when_type_is_missing() {
    let entries = vec![SspClipboard { content: Some(gzip("event")), mstimestamp: Some(42) }];
    let decoded = clipboard_change(&entries).expect("clipboard");
    assert_eq!(decoded[0].text, "event");
    assert_eq!(decoded[0].timestamp_ms, 42);
    let broken = vec![SspClipboard { content: Some(vec![1, 2, 3]), mstimestamp: None }];
    assert!(clipboard_change(&broken).is_none());
}

#[test]
fn clipboard_round_trip_gzip() {
    let entry = decode_clipboard(&SspClipboard { content: Some(gzip("sample")), mstimestamp: Some(42) }).unwrap();
    assert_eq!(entry.text, "sample");
    assert_eq!(entry.timestamp_ms, 42);
    assert_eq!(
        decode_clipboard(&SspClipboard { content: None, mstimestamp: None }).unwrap_err(),
        Error::Protocol(ProtocolFault::ClipboardUndecodable)
    );
}

#[test]
fn recognizes_explicit_remote_cancel() {
    const SDCARD_REMOVED: i32 = 2;
    let message = CancelMessage { is_cancel_type: true, session_id: Some(0x8000_0002), error_code: Some(SDCARD_REMOVED) };
    let cancel = decode_cancel(Some(message)).expect("cancel");
    assert_eq!(cancel.session_id, Some(0x8000_0002));
    assert_eq!(cancel.error_code, Some(SDCARD_REMOVED));
    let no_session = CancelMessage { is_cancel_type: true, session_id: None, error_code: None };
    assert_eq!(decode_cancel(Some(no_session)), None);
}

#[test]
fn exif_datetime_is_parsed_as_utc_seconds() {
    assert_eq!(exif_datetime_to_unix("1970:01:01 00:00:00"), Some(0));
    assert_eq!(exif_datetime_to_unix("1970:01:01 00:00:01"), Some(1));
    assert_eq!(exif_datetime_to_unix("2023:06:03 01:53:20"), Some(1_685_757_200));
    assert_eq!(exif_datetime_to_unix("1969:12:31 23:59:59"), None);
    assert_eq!(exif_datetime_to_unix("garbage"), None);
    assert_eq!(exif_datetime_to_unix("2023:13:01 00:00:00"), None);
}

#[test]
fn days_from_civil_matches_known_epoch_days() {
    assert_eq!(days_from_civil(1970, 1, 1), 0);
    assert_eq!(days_from_civil(1970, 1, 2), 1);
    assert_eq!(days_from_civil(2023, 6, 3), 19_511);
    assert_eq!(days_from_civil(1969, 12, 31), -1);
}

#[test]
fn filter_constants_match_accessory_spec() {
    assert_eq!(ACCESSORY_VID, 0x18d1);
    assert_eq!(ACCESSORY_PIDS, [0x2d00, 0x2d01, 0x2d02, 0x2d03]);
    assert_eq!(ACCESSORY_IFACE_CLASS, 0xff);
    assert_eq!(ACCESSORY_IFACE_SUBCLASS, 0xff);
}

#[test]
fn location_format_is_stable() {
    assert_eq!(usb_location(1, &[2, 3]), "1-2-3");
    assert_eq!(usb_location(20, &[]), "20-");
}

#[test]
fn usb_error_maps_device_gone_to_transport() {
    assert_eq!(usb_error(UsbErrorKind::NoDevice), Error::Transport(TransportFault::UsbGone));
    assert_eq!(usb_error(UsbErrorKind::Busy), Error::Transport(TransportFault::UsbBusy));
    assert_eq!(usb_error(UsbErrorKind::Timeout), Error::Transport(TransportFault::Usb));
}

#[test]
fn fill_buffer_retains_overflow_for_small_reads() {
    let mut pending = Vec::new();
    let chunk = vec![0x5a_u8; 16 * 1024];
    let served = fill_buffer(6, &mut pending, &chunk);
    assert_eq!(served, vec![0x5a; 6]);
    assert_eq!(pending.len(), 16 * 1024 - 6);
    assert!(pending.iter().all(|byte| *byte == 0x5a));
    let served = fill_buffer(4, &mut pending, &[]);
    assert_eq!(served, vec![0x5a; 4]);
    assert_eq!(pending.len(), 16 * 1024 - 10);
}

fn accessory(location: &str) -> UsbAccessory {
    UsbAccessory {
        location: location.to_string(),
        bus_number: 1,
        serial: None,
        vendor_id: ACCESSORY_VID,
        product_id: 0x2d01,
        mode: AccessoryMode::Accessory,
    }
}

#[test]
fn accessory_selection_requires_a_match_or_a_single_device() {
    let list = vec![accessory("1-2"), accessory("1-3")];
    assert_eq!(select_accessory(&list, &Some("1-3".to_string())), Ok(1));
    assert_eq!(
        select_accessory(&list, &Some("9-9".to_string())),
        Err(Error::LocalIo(LocalFault::NoAccessory))
    );
    assert_eq!(select_accessory(&list, &None), Err(Error::LocalIo(LocalFault::AmbiguousAccessory)));
    assert_eq!(select_accessory(&list[..1], &None), Ok(0));
}

#[test]
fn accessory_endpoints_prefer_the_one_in_one_out_interface() {
    let bulk = |is_in: bool, address: u8| EndpointInfo { bulk: true, is_in, address };
    let settings = vec![
        InterfaceSetting { interface_number: 0, class_code: 0xff, sub_class_code: 0xff, endpoints: vec![bulk(true, 0x81), bulk(true, 0x82), bulk(false, 0x01)] },
        InterfaceSetting { interface_number: 1, class_code: 0xff, sub_class_code: 0xff, endpoints: vec![bulk(true, 0x83), bulk(false, 0x02)] },
    ];
    assert_eq!(accessory_endpoints(&settings), Ok((1, 0x83, 0x02)));
    assert_eq!(accessory_endpoints(&settings[..1]), Ok((0, 0x81, 0x01)));
    assert_eq!(accessory_endpoints(&[]), Err(Error::LocalIo(LocalFault::NoEndpoints)));
}

#[test]
fn fnv1a64_is_stable_and_distinct() {
    assert_eq!(fnv1a64(""), 0xcbf2_9ce4_8422_2325);
    assert_eq!(fnv1a64("a"), 0xaf63_dc4c_8601_ec8c);
    assert_eq!(fnv1a64("foobar"), 0x8594_4171_f739_67e8);
    assert_ne!(fnv1a64("/a.jpg"), fnv1a64("/b.jpg"));
}

#[test]
fn thumbnail_cache_paths_are_per_device_and_revision() {
    let a = cache_path_for("/cache", "image", "phone:abc", "/a.jpg", "");
    let b = cache_path_for("/cache", "image", "phone:abc", "/a.jpg", "");
    let other = cache_path_for("/cache", "image", "phone:xyz", "/a.jpg", "");
    let revised = cache_path_for("/cache", "image", "phone:abc", "/a.jpg", "modified_at=2;size=99");
    assert_eq!(a, b);
    assert_ne!(a, other);
    assert_ne!(a, revised);
    assert_eq!(a, format!("/cache/phoneabc-image-{:016x}.thumb", fnv1a64("phone:abc\0/a.jpg")));
    let evil = sanitize_cache_component("../../etc/passwd");
    assert_eq!(evil, "etcpasswd");
    assert_eq!(sanitize_cache_component(&"x".repeat(100)).len(), 64);
    assert_eq!(image_cache_revision(None, None, None, &None), "");
    assert_eq!(
        image_cache_revision(Some(1), None, Some(2), &Some("m".to_string())),
        "media_id=Some(1);size=None;modified_at=Some(2);mini_thumb_magic=Some(\"m\")"
    );
}

#[test]
fn download_checksum_comparison_ignores_case() {
    assert_eq!(check_download_checksum(&Some("ABCDEF".to_string()), "abcdef"), Ok(()));
    assert_eq!(check_download_checksum(&Some(String::new()), "abcdef"), Ok(()));
    assert_eq!(check_download_checksum(&None, "abcdef"), Ok(()));
    assert_eq!(
        check_download_checksum(&Some("00".to_string()), "abcdef"),
        Err(Error::Protocol(ProtocolFault::ChecksumMismatch))
    );
}

#[test]
fn temporary_download_path_stays_next_to_the_target() {
    assert_eq!(
        temporary_download_path_with("/tmp/out/a.jpg", "t"),
        Ok("/tmp/out/.a.jpg.handshaker-part-t".to_string())
    );
    assert_eq!(
        temporary_download_path_with("/", "t"),
        Err(Error::LocalIo(LocalFault::PathNameRequired))
    );
    let token = uuid::Uuid::new_v4().to_string();
    let path = temporary_download_path_with("/tmp/out/a.jpg", &token).expect("path");
    assert_eq!(path, format!("/tmp/out/.a.jpg.handshaker-part-{token}"));
}

fn remote(path: &str, is_directory: bool) -> RemoteFile {
    RemoteFile {
        path: path.to_string(),
        size: 1,
        created_at: None,
        modified_at: None,
        is_directory,
        checksum: None,
        is_trash: None,
        id: None,
        ext_data: None,
    }
}

#[test]
fn download_tree_mirrors_remote_directory_structure() {
    let files = vec![remote("/storage/hs/sub", true), remote("/storage/hs/sub/a.txt", false)];
    let plan = plan_download_tree("/storage/hs/", "/tmp/out", &files).expect("plan");
    assert_eq!(plan.directories, vec!["/tmp/out/sub".to_string()]);
    assert_eq!(plan.items.len(), 1);
    assert_eq!(plan.items[0].source, "/storage/hs/sub/a.txt");
    assert_eq!(plan.items[0].target, "/tmp/out/sub/a.txt");
}

#[test]
fn download_tree_rejects_paths_escaping_the_requested_subtree() {
    for hostile in ["/storage/other/a.txt", "/storage/hs/../a.txt", "/storage/hs//etc/passwd"] {
        let files = vec![remote("/storage/hs/ok.txt", false), remote(hostile, false)];
        assert_eq!(
            plan_download_tree("/storage/hs", "/tmp/out", &files).unwrap_err(),
            Error::Protocol(ProtocolFault::PathOutsideRoot)
        );
    }
}

#[test]
fn upload_directories_are_unique_and_parents_come_first() {
    let dirs: Vec<String> = ["/up/b/c", "/up", "/up/b", "/up/a", "/up/b"]
        .iter()
        .map(|s| s.to_string())
        .collect();
    assert_eq!(upload_directory_order(&dirs), vec!["/up", "/up/a", "/up/b", "/up/b/c"]);
    assert!(upload_directory_order(&[]).is_empty());
}

#[test]
fn upload_checks_source_and_existing_target() {
    assert_eq!(check_upload(false, false, false), Err(Error::LocalIo(LocalFault::NotRegularFile)));
    assert_eq!(
        check_upload(true, true, false),
        Err(Error::RemoteIo { code: Some(FILE_IO_TARGET_ALREADY_EXIST) })
    );
    assert_eq!(check_upload(true, true, true), Ok(()));
    assert_eq!(check_upload(true, false, false), Ok(()));
}

#[test]
fn remote_child_joins_without_doubling_the_separator() {
    assert_eq!(remote_child("/up/", "a.jpg"), "/up/a.jpg");
    assert_eq!(remote_child("/up", "b"), "/up/b");
}
