use handshaker_core::error::{Error, UsageFault};
use handshaker_core::host::{
    backfill_identity, is_terminal, list_devices_request, normalize_device_id, placeholder_device, runtime_settings,
    sync_profile, HandshakeIdentity, TransferState,
};
use handshaker_core::media::{page_request, MediaPageRequest};
use handshaker_core::thumbnails::{
    check_thumbnail_request, classify_thumbnail_response, missing_responses, plan_thumbnails, response_marks,
    thumbnail_identity, ThumbnailFailureReason, ThumbnailItem, ThumbnailOutcome, ThumbnailResponse,
};

#[test]
fn page_request_rejects_limit_out_of_range() {
    assert_eq!(page_request(Some(0), None), Err(Error::Usage(UsageFault::PageLimitRange)));
    assert_eq!(page_request(Some(1001), None), Err(Error::Usage(UsageFault::PageLimitRange)));
    assert_eq!(
        page_request(Some(1000), None),
        Ok(MediaPageRequest::Page { cursor: None, limit: Some(1000) })
    );
    assert_eq!(page_request(None, None), Ok(MediaPageRequest::Full));
}

#[test]
fn page_request_cursor_is_forwarded() {
    assert_eq!(page_request(None, Some(5)), Ok(MediaPageRequest::Page { cursor: Some(5), limit: None }));
    assert_eq!(
        page_request(Some(50), Some(5)),
        Ok(MediaPageRequest::Page { cursor: Some(5), limit: Some(50) })
    );
}

fn item(path: Option<&str>, id: Option<u64>, revision: &str) -> ThumbnailItem {
    ThumbnailItem { path: path.map(str::to_string), id, revision: revision.to_string() }
}

#[test]
fn thumbnail_entry_requires_path_or_id() {
    assert_eq!(
        check_thumbnail_request(&[item(None, None, "")], &[], &[]),
        Err(Error::Usage(UsageFault::ThumbnailIdentityRequired))
    );
    assert_eq!(check_thumbnail_request(&[item(Some("/a"), None, "")], &[item(None, Some(1), "")], &[]), Ok(()));
}

#[test]
fn thumbnail_plan_serves_hits_and_asks_each_identity_once() {
    let items = vec![
        item(Some("/hit.jpg"), Some(1), ""),
        item(Some("/miss.jpg"), Some(2), ""),
        item(Some("/miss-again.jpg"), Some(2), ""),
        item(None, Some(3), ""),
    ];
    let hits = vec![Some(10), None, None, Some(99)];
    let plan = plan_thumbnails(&items, &hits);
    assert_eq!(plan.cached, vec![0]);
    assert_eq!(plan.scheduled, vec![1, 3]);
    assert_eq!(thumbnail_identity(&None, Some(3)), "id:3");
    assert_eq!(thumbnail_identity(&Some("/p".to_string()), None), "path:/p");
    assert_eq!(thumbnail_identity(&None, None), "missing");
}

fn response(path: Option<&str>, media_id: Option<u64>, has_data: bool, thumbnail_error: bool) -> ThumbnailResponse {
    ThumbnailResponse { path: path.map(str::to_string), media_id, album_id: None, has_data, thumbnail_error }
}

#[test]
fn thumbnail_responses_cache_success_and_surface_item_failures() {
    let items = vec![item(Some("/ok.jpg"), Some(1), "revision=1")];
    let responses = vec![
        response(Some("/ok.jpg"), Some(1), true, false),
        response(Some("/phone-error.jpg"), Some(2), false, true),
        response(Some("/missing.jpg"), Some(3), false, false),
    ];
    let outcomes: Vec<ThumbnailOutcome> = responses
        .iter()
        .map(|r| classify_thumbnail_response(r, &items, "/cache", "image", "phone:abc"))
        .collect();
    assert_eq!(
        outcomes[0],
        ThumbnailOutcome::Cache {
            path: "/ok.jpg".to_string(),
            cache_path: handshaker_core::thumbnails::cache_path_for("/cache", "image", "phone:abc", "/ok.jpg", "revision=1"),
        }
    );
    assert_eq!(outcomes[1], ThumbnailOutcome::Failed(ThumbnailFailureReason::ThumbnailError));
    assert_eq!(outcomes[2], ThumbnailOutcome::Failed(ThumbnailFailureReason::MissingData));
    assert_eq!(ThumbnailFailureReason::MissingData.token(), "missing_data");
    let marks = response_marks(&responses);
    assert!(marks.contains(&"id:1".to_string()));
    assert!(marks.contains(&"path:/ok.jpg".to_string()));
}

#[test]
fn unanswered_thumbnail_requests_are_reported_missing() {
    let items = vec![item(Some("/a.jpg"), Some(1), ""), item(Some("/b.jpg"), Some(2), ""), item(Some("/c.jpg"), None, "")];
    let responses = vec![response(Some("/other.jpg"), Some(1), true, false), response(Some("/c.jpg"), None, true, false)];
    let marks = response_marks(&responses);
    assert_eq!(missing_responses(&items, &[0, 1, 2], &marks), vec![1]);
}

#[test]
fn sync_profile_defaults_and_requirements() {
    let profile = sync_profile(7, &None, &Some("dev".to_string()), &None, &Some("/l".to_string()), None).expect("profile");
    assert_eq!(profile.id, "dev");
    assert_eq!(profile.session_id, 7);
    assert_eq!(profile.remote_root, "/storage/emulated/0/DCIM/Camera");
    assert!(profile.enabled);
    assert_eq!(
        sync_profile(7, &None, &Some(String::new()), &None, &Some("/l".to_string()), None),
        Err(Error::Usage(UsageFault::DeviceUuidRequired))
    );
    assert_eq!(
        sync_profile(7, &None, &Some("dev".to_string()), &None, &None, Some(false)),
        Err(Error::Usage(UsageFault::LocalRootRequired))
    );
}

#[test]
fn device_ids_are_normalized_to_phone_prefix() {
    assert_eq!(normalize_device_id("abc"), "phone:abc");
    assert_eq!(normalize_device_id("phone:abc"), "phone:abc");
}

#[test]
fn runtime_and_listing_defaults() {
    let settings = runtime_settings(&None, None, None, &None, None);
    assert_eq!(settings.adb_path, "adb");
    assert_eq!(settings.timeout_ms, 30_000);
    assert_eq!(settings.heartbeat_interval_ms, 10_000);
    assert_eq!(settings.event_capacity, 1024);
    let request = list_devices_request(None, Some(false), None, None);
    assert!(request.include_adb && !request.include_wifi && request.include_usb);
    assert_eq!(request.wifi_browse_timeout_ms, 3000);
    assert!(is_terminal(TransferState::Cancelled));
    assert!(!is_terminal(TransferState::Running));
}

#[test]
fn handshake_identity_backfills_missing_device_fields() {
    let mut device = placeholder_device("192.0.2.1:1234");
    assert_eq!(device.root_path, "/sdcard");
    device.name = Some("named".to_string());
    backfill_identity(
        &mut device,
        &HandshakeIdentity {
            device_uuid: "uuid".to_string(),
            device_name: Some("other".to_string()),
            apk_version: Some("408".to_string()),
            apk_version_name: None,
        },
    );
    assert_eq!(device.phone_id.as_deref(), Some("uuid"));
    assert_eq!(device.name.as_deref(), Some("named"));
    assert_eq!(device.apk_version.as_deref(), Some("408"));
    assert_eq!(device.apk_version_name, None);
}
