//! Host-side request rules: sync profiles with their defaults, device id
//! normalization, runtime and listing defaults, transfer states, and the
//! connection's device record.
use vstd::prelude::*;

use crate::domain::DeviceInfo;
use crate::error::{Error, UsageFault};
use crate::text::{append_str, copy_opt_string, copy_string, ostr, owned, string_from_chars};

verus! {

/// Camera folder synced when a profile names no remote root.
pub const DEFAULT_SYNC_ROOT: &'static str = "/storage/emulated/0/DCIM/Camera";

/// Default request timeout of a runtime, in milliseconds.
pub const DEFAULT_TIMEOUT_MS: u64 = 30000;

/// Default heartbeat interval of a runtime, in milliseconds.
pub const DEFAULT_HEARTBEAT_MS: u64 = 10000;

/// Default event queue capacity of a runtime.
pub const DEFAULT_EVENT_CAPACITY: u32 = 1024;

/// Default WiFi browse time when listing devices, in milliseconds.
pub const DEFAULT_BROWSE_MS: u64 = 3000;

/// A sync profile.
#[derive(Debug, Clone, PartialEq, Eq)]
pub struct SyncProfile {
    /// Profile id.
    pub id: String,
    /// Session the profile runs on.
    pub session_id: u64,
    /// Phone identity.
    pub device_uuid: String,
    /// Phone folder to sync.
    pub remote_root: String,
    /// Local folder to sync into.
    pub local_root: String,
    /// Whether the profile is active.
    pub enabled: bool,
}

/// A present, non-empty text field.
pub open spec fn given(o: Option<Seq<char>>) -> bool {
    o matches Some(s) && s.len() > 0
}

/// The profile a request describes: the device identity and local root are
/// required (absent or empty ones are refused); the id defaults to the
/// device identity, the remote root to the camera folder, and `enabled` to
/// true. The session always comes from the call, never the request.
pub fn sync_profile(
    session_id: u64,
    id: &Option<String>,
    device_uuid: &Option<String>,
    remote_root: &Option<String>,
    local_root: &Option<String>,
    enabled: Option<bool>,
) -> (r: Result<SyncProfile, Error>)
    ensures
        !given(ostr(*device_uuid)) ==> r == Err::<SyncProfile, Error>(Error::Usage(UsageFault::DeviceUuidRequired)),
        given(ostr(*device_uuid)) && !given(ostr(*local_root)) ==> r == Err::<SyncProfile, Error>(
            Error::Usage(UsageFault::LocalRootRequired),
        ),
        given(ostr(*device_uuid)) && given(ostr(*local_root)) ==> (r matches Ok(p) && {
            &&& p.session_id == session_id
            &&& p.device_uuid@ == ostr(*device_uuid)->0
            &&& p.local_root@ == ostr(*local_root)->0
            &&& p.id@ == if given(ostr(*id)) {
                ostr(*id)->0
            } else {
                ostr(*device_uuid)->0
            }
            &&& p.remote_root@ == if given(ostr(*remote_root)) {
                ostr(*remote_root)->0
            } else {
                DEFAULT_SYNC_ROOT@
            }
            &&& p.enabled == match enabled {
                Some(b) => b,
                None => true,
            }
        }),
{
    let device = match device_uuid {
        Some(d) => if d.as_str().is_empty() {
            return Err(Error::Usage(UsageFault::DeviceUuidRequired));
        } else {
            copy_string(d)
        },
        None => return Err(Error::Usage(UsageFault::DeviceUuidRequired)),
    };
    let local = match local_root {
        Some(l) => if l.as_str().is_empty() {
            return Err(Error::Usage(UsageFault::LocalRootRequired));
        } else {
            copy_string(l)
        },
        None => return Err(Error::Usage(UsageFault::LocalRootRequired)),
    };
    let pid = match id {
        Some(i) => if i.as_str().is_empty() {
            copy_string(&device)
        } else {
            copy_string(i)
        },
        None => copy_string(&device),
    };
    let remote = match remote_root {
        Some(r) => if r.as_str().is_empty() {
            owned(DEFAULT_SYNC_ROOT)
        } else {
            copy_string(r)
        },
        None => owned(DEFAULT_SYNC_ROOT),
    };
    Ok(
        SyncProfile {
            id: pid,
            session_id,
            device_uuid: device,
            remote_root: remote,
            local_root: local,
            enabled: match enabled {
                Some(b) => b,
                None => true,
            },
        },
    )
}

/// `phone:`.
pub open spec fn phone_prefix() -> Seq<char> {
    seq!['p', 'h', 'o', 'n', 'e', ':']
}

/// A device id in its canonical `phone:<uuid>` form: ids that carry the
/// prefix pass through, others get it prepended.
pub fn normalize_device_id(raw: &str) -> (r: String)
    ensures
        r@ == if raw@.len() >= 6 && raw@.subrange(0, 6) == phone_prefix() {
            raw@
        } else {
            phone_prefix() + raw@
        },
{
    let cs = crate::text::chars_of(raw);
    let has = cs.len() >= 6 && cs[0] == 'p' && cs[1] == 'h' && cs[2] == 'o' && cs[3] == 'n' && cs[4] == 'e'
        && cs[5] == ':';
    proof {
        if cs@.len() >= 6 {
            if has {
                assert(cs@.subrange(0, 6) =~= phone_prefix());
            } else if cs@.subrange(0, 6) == phone_prefix() {
                assert(cs@.subrange(0, 6)[0] == 'p');
                assert(cs@.subrange(0, 6)[5] == ':');
                assert(cs@[1] == cs@.subrange(0, 6)[1]);
                assert(cs@[2] == cs@.subrange(0, 6)[2]);
                assert(cs@[3] == cs@.subrange(0, 6)[3]);
                assert(cs@[4] == cs@.subrange(0, 6)[4]);
            }
        }
    }
    if has {
        return owned(raw);
    }
    let mut out: Vec<char> = Vec::new();
    append_str(&mut out, "phone:");
    append_str(&mut out, raw);
    proof {
        reveal_strlit("phone:");
        assert(out@ =~= phone_prefix() + raw@);
    }
    string_from_chars(out.as_slice())
}

/// Runtime settings.
#[derive(Debug, Clone, PartialEq, Eq)]
pub struct RuntimeSettings {
    /// ADB executable.
    pub adb_path: String,
    /// Request timeout in milliseconds.
    pub timeout_ms: u64,
    /// Heartbeat interval in milliseconds.
    pub heartbeat_interval_ms: u64,
    /// State directory, when configured.
    pub state_dir: Option<String>,
    /// Event queue capacity.
    pub event_capacity: u32,
}

/// Runtime settings from a configuration whose fields are all optional:
/// `adb`, 30 s, 10 s, no state directory and 1024 events by default.
pub fn runtime_settings(
    adb_path: &Option<String>,
    timeout_ms: Option<u64>,
    heartbeat_interval_ms: Option<u64>,
    state_dir: &Option<String>,
    event_capacity: Option<u32>,
) -> (r: RuntimeSettings)
    ensures
        r.adb_path@ == match ostr(*adb_path) {
            Some(p) => p,
            None => "adb"@,
        },
        r.timeout_ms == match timeout_ms {
            Some(t) => t,
            None => DEFAULT_TIMEOUT_MS,
        },
        r.heartbeat_interval_ms == match heartbeat_interval_ms {
            Some(t) => t,
            None => DEFAULT_HEARTBEAT_MS,
        },
        ostr(r.state_dir) == ostr(*state_dir),
        r.event_capacity == match event_capacity {
            Some(c) => c,
            None => DEFAULT_EVENT_CAPACITY,
        },
{
    RuntimeSettings {
        adb_path: match adb_path {
            Some(p) => copy_string(p),
            None => owned("adb"),
        },
        timeout_ms: match timeout_ms {
            Some(t) => t,
            None => DEFAULT_TIMEOUT_MS,
        },
        heartbeat_interval_ms: match heartbeat_interval_ms {
            Some(t) => t,
            None => DEFAULT_HEARTBEAT_MS,
        },
        state_dir: copy_opt_string(state_dir),
        event_capacity: match event_capacity {
            Some(c) => c,
            None => DEFAULT_EVENT_CAPACITY,
        },
    }
}

/// Which transports a device listing covers, and how long WiFi browses.
#[derive(Debug, Clone, Copy, PartialEq, Eq, Structural)]
pub struct ListDevicesRequest {
    /// Include ADB devices.
    pub include_adb: bool,
    /// Include WiFi devices.
    pub include_wifi: bool,
    /// Include USB accessories.
    pub include_usb: bool,
    /// WiFi browse time in milliseconds.
    pub wifi_browse_timeout_ms: u64,
}

/// A listing request from optional fields: every transport and 3 s of
/// browsing by default.
pub fn list_devices_request(
    include_adb: Option<bool>,
    include_wifi: Option<bool>,
    include_usb: Option<bool>,
    wifi_browse_timeout_ms: Option<u64>,
) -> (r: ListDevicesRequest)
    ensures
        r.include_adb == (include_adb != Some(false)),
        r.include_wifi == (include_wifi != Some(false)),
        r.include_usb == (include_usb != Some(false)),
        r.wifi_browse_timeout_ms == match wifi_browse_timeout_ms {
            Some(t) => t,
            None => DEFAULT_BROWSE_MS,
        },
{
    ListDevicesRequest {
        include_adb: match include_adb {
            Some(b) => b,
            None => true,
        },
        include_wifi: match include_wifi {
            Some(b) => b,
            None => true,
        },
        include_usb: match include_usb {
            Some(b) => b,
            None => true,
        },
        wifi_browse_timeout_ms: match wifi_browse_timeout_ms {
            Some(t) => t,
            None => DEFAULT_BROWSE_MS,
        },
    }
}

/// State of a background transfer.
#[derive(Debug, Clone, Copy, PartialEq, Eq, Structural)]
pub enum TransferState {
    /// Waiting to start.
    Queued,
    /// In progress.
    Running,
    /// Finished.
    Completed,
    /// Failed.
    Failed,
    /// Cancelled.
    Cancelled,
}

/// Whether a transfer has ended: completed, failed or cancelled.
pub fn is_terminal(state: TransferState) -> (r: bool)
    ensures
        r == (state == TransferState::Completed || state == TransferState::Failed || state
            == TransferState::Cancelled),
{
    match state {
        TransferState::Completed | TransferState::Failed | TransferState::Cancelled => true,
        _ => false,
    }
}

/// What the WiFi handshake learned of the phone.
#[derive(Debug, Clone, PartialEq, Eq)]
pub struct HandshakeIdentity {
    /// Phone UUID.
    pub device_uuid: String,
    /// Phone name.
    pub device_name: Option<String>,
    /// App version code.
    pub apk_version: Option<String>,
    /// App version name.
    pub apk_version_name: Option<String>,
}

/// The device record before device information is fetched: the transport
/// label as serial, the default root, nothing else known.
pub fn placeholder_device(serial: &str) -> (r: DeviceInfo)
    ensures
        r.serial@ == serial@,
        r.root_path@ == "/sdcard"@,
        r.phone_id is None && r.name is None && r.model is None && r.brand is None,
        r.manufacturer is None && r.smartisan_version is None && r.apk_version is None,
        r.apk_version_name is None && r.external_storage_path is None && r.disk_size is None,
        r.used_disk_size is None && r.battery_percentage is None && r.phone_locked is None,
{
    DeviceInfo {
        serial: owned(serial),
        phone_id: None,
        name: None,
        model: None,
        brand: None,
        manufacturer: None,
        smartisan_version: None,
        apk_version: None,
        apk_version_name: None,
        root_path: owned("/sdcard"),
        external_storage_path: None,
        disk_size: None,
        used_disk_size: None,
        battery_percentage: None,
        phone_locked: None,
    }
}

/// Fill identity fields the device information lacked from the WiFi
/// handshake: the phone id, name and app versions, each only when absent.
pub fn backfill_identity(device: &mut DeviceInfo, info: &HandshakeIdentity)
    ensures
        ostr(final(device).phone_id) == match ostr(old(device).phone_id) {
            Some(p) => Some(p),
            None => Some(info.device_uuid@),
        },
        ostr(final(device).name) == match ostr(old(device).name) {
            Some(n) => Some(n),
            None => ostr(info.device_name),
        },
        ostr(final(device).apk_version) == match ostr(old(device).apk_version) {
            Some(v) => Some(v),
            None => ostr(info.apk_version),
        },
        ostr(final(device).apk_version_name) == match ostr(old(device).apk_version_name) {
            Some(v) => Some(v),
            None => ostr(info.apk_version_name),
        },
        final(device).serial == old(device).serial,
        final(device).root_path == old(device).root_path,
        final(device).model == old(device).model,
        final(device).brand == old(device).brand,
        final(device).manufacturer == old(device).manufacturer,
        final(device).smartisan_version == old(device).smartisan_version,
        final(device).external_storage_path == old(device).external_storage_path,
        final(device).disk_size == old(device).disk_size,
        final(device).used_disk_size == old(device).used_disk_size,
        final(device).battery_percentage == old(device).battery_percentage,
        final(device).phone_locked == old(device).phone_locked,
{
    if device.phone_id.is_none() {
        device.phone_id = Some(copy_string(&info.device_uuid));
    }
    if device.name.is_none() {
        device.name = copy_opt_string(&info.device_name);
    }
    if device.apk_version.is_none() {
        device.apk_version = copy_opt_string(&info.apk_version);
    }
    if device.apk_version_name.is_none() {
        device.apk_version_name = copy_opt_string(&info.apk_version_name);
    }
}

} // verus!
