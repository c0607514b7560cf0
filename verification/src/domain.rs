//! Public domain values exchanged with callers.
use vstd::prelude::*;

use crate::text::{copy_opt_string, copy_string, ostr};

verus! {

/// File or directory metadata on the phone.
#[derive(Debug, Clone, PartialEq, Eq)]
pub struct RemoteFile {
    /// Absolute remote path.
    pub path: String,
    /// File size in bytes.
    pub size: u64,
    /// Creation timestamp, when reported.
    pub created_at: Option<u64>,
    /// Modification timestamp, when reported.
    pub modified_at: Option<u64>,
    /// Whether the remote entry is a directory.
    pub is_directory: bool,
    /// Checksum reported by the phone, when available.
    pub checksum: Option<String>,
    /// Whether the phone marks the entry as trash.
    pub is_trash: Option<bool>,
    /// Media-store identifier, when available.
    pub id: Option<u64>,
    /// Phone-side extension data (opaque JSON), used to tell content changes
    /// from metadata-only changes.
    pub ext_data: Option<String>,
}

impl RemoteFile {
    /// A deep copy.
    pub fn duplicate(&self) -> (r: Self)
        ensures
            r.same_as(*self),
    {
        RemoteFile {
            path: copy_string(&self.path),
            size: self.size,
            created_at: self.created_at,
            modified_at: self.modified_at,
            is_directory: self.is_directory,
            checksum: copy_opt_string(&self.checksum),
            is_trash: self.is_trash,
            id: self.id,
            ext_data: copy_opt_string(&self.ext_data),
        }
    }

    /// Equality by content.
    pub open spec fn same_as(self, other: Self) -> bool {
        &&& self.path@ == other.path@
        &&& self.size == other.size
        &&& self.created_at == other.created_at
        &&& self.modified_at == other.modified_at
        &&& self.is_directory == other.is_directory
        &&& ostr(self.checksum) == ostr(other.checksum)
        &&& self.is_trash == other.is_trash
        &&& self.id == other.id
        &&& ostr(self.ext_data) == ostr(other.ext_data)
    }
}

/// Photo-sync profile: which phone folder to sync and where to store it.
#[derive(Debug, Clone, PartialEq, Eq)]
pub struct SyncConfig {
    /// Stable phone identifier used to key the ledger file.
    pub device_uuid: String,
    /// Phone-side root folder to sync.
    pub phone_root: String,
    /// Local destination directory for downloaded photos.
    pub local_root: String,
    /// Stable host-side pc identifier sent with the photo-sync request.
    pub pc_id: String,
}

/// One recorded file in the sync ledger.
#[derive(Debug, Clone, PartialEq, Eq)]
pub struct SyncFileRecord {
    /// Phone-side file size.
    pub size: u64,
    /// Phone-reported checksum, when available.
    pub checksum: Option<String>,
    /// Phone-side extension data, opaque.
    pub ext_data: Option<String>,
    /// Phone-side modification timestamp.
    pub modified_at: Option<u64>,
    /// Local file path the photo was downloaded to.
    pub local_path: String,
    /// SHA-256 of the downloaded local file at ledger commit time.
    pub local_sha256: Option<String>,
}

/// Content view of a ledger record.
pub struct RecordView {
    pub size: u64,
    pub checksum: Option<Seq<char>>,
    pub ext_data: Option<Seq<char>>,
    pub modified_at: Option<u64>,
    pub local_path: Seq<char>,
    pub local_sha256: Option<Seq<char>>,
}

impl SyncFileRecord {
    /// Content view.
    pub open spec fn view(self) -> RecordView {
        RecordView {
            size: self.size,
            checksum: ostr(self.checksum),
            ext_data: ostr(self.ext_data),
            modified_at: self.modified_at,
            local_path: self.local_path@,
            local_sha256: ostr(self.local_sha256),
        }
    }

    /// A deep copy.
    pub fn duplicate(&self) -> (r: Self)
        ensures
            r.view() == self.view(),
    {
        SyncFileRecord {
            size: self.size,
            checksum: copy_opt_string(&self.checksum),
            ext_data: copy_opt_string(&self.ext_data),
            modified_at: self.modified_at,
            local_path: copy_string(&self.local_path),
            local_sha256: copy_opt_string(&self.local_sha256),
        }
    }
}

/// Plan diff between the phone's current photo state and the local ledger.
#[derive(Debug, Clone, PartialEq, Eq)]
pub struct SyncDiff {
    /// Files to download (new or content-modified).
    pub added: Vec<String>,
    /// Files whose phone metadata changed only.
    pub info_modified: Vec<String>,
    /// Files deleted on the phone.
    pub deleted: Vec<String>,
    /// Local files kept because they differ from the ledger.
    pub conflicts: Vec<String>,
}

/// Result of executing a sync plan.
#[derive(Debug, Clone, PartialEq, Eq)]
pub struct SyncRunResult {
    /// Phone paths downloaded successfully.
    pub downloaded: Vec<String>,
    /// Phone paths removed locally.
    pub deleted: Vec<String>,
    /// Phone paths that failed (aggregated, run continues).
    pub failures: Vec<String>,
    /// Phone paths kept because the local file differs from the ledger.
    pub conflicts: Vec<String>,
}

impl SyncRunResult {
    /// An empty result.
    pub fn new() -> (r: Self)
        ensures
            r.downloaded@.len() == 0,
            r.deleted@.len() == 0,
            r.failures@.len() == 0,
            r.conflicts@.len() == 0,
    {
        SyncRunResult {
            downloaded: Vec::new(),
            deleted: Vec::new(),
            failures: Vec::new(),
            conflicts: Vec::new(),
        }
    }
}

/// Phone's answer to a photo-sync request.
#[derive(Debug, Clone, PartialEq, Eq)]
pub struct PhotoSyncResult {
    /// Whether this pc_id is new to the phone.
    pub is_first: Option<bool>,
    /// Current phone-side file state list.
    pub files: Vec<RemoteFile>,
    /// Whether the phone accepted the request.
    pub is_success: Option<bool>,
}

/// One decompressed clipboard entry.
#[derive(Debug, Clone, PartialEq, Eq)]
pub struct ClipboardEntry {
    /// Clipboard text.
    pub text: String,
    /// Phone-provided timestamp in milliseconds.
    pub timestamp_ms: i64,
}

/// Device information returned by the phone during connection.
#[derive(Debug, Clone, PartialEq, Eq)]
pub struct DeviceInfo {
    /// Connection serial selected for this connection.
    pub serial: String,
    /// Phone-side stable identifier, when reported.
    pub phone_id: Option<String>,
    /// User-visible phone name, when reported.
    pub name: Option<String>,
    /// Phone model, when reported.
    pub model: Option<String>,
    /// Product brand, when reported.
    pub brand: Option<String>,
    /// Product manufacturer, when reported.
    pub manufacturer: Option<String>,
    /// Smartisan OS version, when reported.
    pub smartisan_version: Option<String>,
    /// APK version code, when reported.
    pub apk_version: Option<String>,
    /// APK version name, when reported.
    pub apk_version_name: Option<String>,
    /// Root path used for relative remote paths.
    pub root_path: String,
    /// External storage path, when reported.
    pub external_storage_path: Option<String>,
    /// Total internal storage size in bytes, when reported.
    pub disk_size: Option<u64>,
    /// Used internal storage size in bytes, when reported.
    pub used_disk_size: Option<u64>,
    /// Battery percentage, when reported.
    pub battery_percentage: Option<u32>,
    /// Whether the phone reports a locked screen.
    pub phone_locked: Option<bool>,
}

/// One device listed by the ADB server.
#[derive(Debug, Clone, PartialEq, Eq)]
pub struct AdbDevice {
    /// ADB serial.
    pub serial: String,
    /// ADB state, such as device or unauthorized.
    pub state: String,
    /// ADB product identifier.
    pub product: Option<String>,
    /// ADB model identifier.
    pub model: Option<String>,
    /// ADB device identifier.
    pub device: Option<String>,
}

/// One device discovered over mDNS.
#[derive(Debug, Clone, PartialEq, Eq)]
pub struct WifiDevice {
    /// Service instance name.
    pub instance: String,
    /// Host name from the SRV record, without the trailing dot.
    pub host: String,
    /// Resolved addresses, IPv4 first, then IPv6.
    pub addresses: Vec<String>,
    /// TCP port from the SRV record.
    pub port: u16,
    /// TXT record key/value pairs, sorted by key.
    pub txt: Vec<(String, String)>,
}

/// One locally persisted WiFi trust record, without the derived key.
#[derive(Debug, Clone, PartialEq, Eq)]
pub struct TrustRecordInfo {
    /// Phone-side device identifier, the trust key.
    pub device_uuid: String,
    /// Device name stored at trust time.
    pub device_name: Option<String>,
    /// Unix timestamp of the last successful trust.
    pub updated_at: u64,
}

/// Direction of a file transfer.
#[derive(Debug, Clone, Copy, PartialEq, Eq, Structural)]
pub enum TransferDirection {
    /// Phone to local computer.
    Download,
    /// Local computer to phone.
    Upload,
}

/// Progress for one file transfer.
#[derive(Debug, Clone, Copy, PartialEq, Eq, Structural)]
pub struct TransferProgress {
    /// Transfer direction.
    pub direction: TransferDirection,
    /// Bytes transferred so far.
    pub transferred: u64,
    /// Total bytes expected.
    pub total: u64,
}

/// A phone-side file I/O error exposed by the client.
#[derive(Debug, Clone, PartialEq, Eq)]
pub struct RemoteIoError {
    /// SSP file error code, when present.
    pub code: Option<i32>,
    /// Phone-provided or symbolic error message.
    pub message: String,
}

/// Options for a delete request.
#[derive(Debug, Clone, Copy, PartialEq, Eq, Default, Structural)]
pub struct DeleteOptions {
    /// Ask the phone to move the entry to trash.
    pub trash: bool,
    /// Mark the request as part of synchronization.
    pub sync: bool,
}

/// Options for a single-file upload or download (the progress callback is
/// attached by the caller that drives the transfer).
#[derive(Debug, Clone, Copy, PartialEq, Eq, Default, Structural)]
pub struct TransferOptions {
    /// Permit replacing an existing local or remote target.
    pub overwrite: bool,
    /// Download starting offset in bytes (one-shot seek).
    pub offset: u64,
}

/// One unit of a batch transfer.
#[derive(Debug, Clone, PartialEq, Eq)]
pub struct BatchTransferItem {
    /// Source path (local for upload, remote for download).
    pub source: String,
    /// Target path (remote for upload, local for download).
    pub target: String,
}

/// Progress across the files of a batch transfer.
#[derive(Debug, Clone, Copy, PartialEq, Eq, Structural)]
pub struct BatchTransferProgress {
    /// Files finished so far (successful or failed).
    pub done: usize,
    /// Total files in the batch.
    pub total: usize,
}

/// Options for a batch transfer (the progress callback and cancellation
/// token are attached by the caller that drives the batch).
#[derive(Debug, Clone, Copy, PartialEq, Eq, Structural)]
pub struct BatchTransferOptions {
    /// Permit replacing existing local or remote targets.
    pub overwrite: bool,
    /// Download starting offset in bytes (downloads only).
    pub offset: u64,
    /// Maximum files transferred in parallel (`1..=8`).
    pub concurrency: usize,
}

impl BatchTransferOptions {
    /// Serial, non-overwriting transfers from offset zero.
    pub fn new() -> (r: Self)
        ensures
            r == (BatchTransferOptions { overwrite: false, offset: 0, concurrency: 1 }),
    {
        BatchTransferOptions { overwrite: false, offset: 0, concurrency: 1 }
    }
}

/// A failed file within a batch transfer.
#[derive(Debug, Clone, PartialEq, Eq)]
pub struct BatchTransferFailure {
    /// The item's source path.
    pub source: String,
    /// The item's target path.
    pub target: String,
    /// Human-readable error message for this file.
    pub message: String,
    /// The class of the error that failed this item; `Interrupted` marks an
    /// item skipped because the batch was cancelled.
    pub code: Option<crate::error::ErrorCode>,
}

/// Aggregated result of a batch transfer.
#[derive(Debug, Clone, PartialEq, Eq)]
pub struct BatchTransferResult {
    /// Items that transferred successfully.
    pub ok: Vec<BatchTransferItem>,
    /// Items that failed, with per-file messages.
    pub failures: Vec<BatchTransferFailure>,
}

/// An image entry from the phone photo library.
#[derive(Debug, Clone, PartialEq, Eq)]
pub struct ImageFile {
    pub path: Option<String>,
    pub size: Option<u64>,
    pub created_at: Option<u64>,
    pub modified_at: Option<u64>,
    pub width: Option<u32>,
    pub height: Option<u32>,
    pub orientation: Option<u32>,
    pub media_id: Option<u64>,
    pub album_id: Option<u64>,
    pub mime_type: Option<String>,
    /// Embedded thumbnail bytes (JPEG), when fetched.
    pub thumbnail: Option<Vec<u8>>,
    pub album_name: Option<String>,
    pub date_taken: Option<u64>,
    pub latitude: Option<String>,
    pub longitude: Option<String>,
    pub mini_thumb_magic: Option<String>,
    pub title: Option<String>,
    /// Whether the phone failed to produce a thumbnail for this entry.
    pub thumbnail_error: bool,
    /// Whether the image is starred.
    pub starred: bool,
}

/// A photo album.
#[derive(Debug, Clone, PartialEq, Eq)]
pub struct ImageAlbum {
    pub path: Option<String>,
    pub album_id: Option<u64>,
    pub name: Option<String>,
    /// Cover image, when supplied by the phone.
    pub cover_image: Option<Box<ImageFile>>,
}

/// A video album.
#[derive(Debug, Clone, PartialEq, Eq)]
pub struct VideoAlbum {
    pub path: Option<String>,
    pub album_id: Option<u64>,
    pub name: Option<String>,
}

/// An audio album.
#[derive(Debug, Clone, PartialEq, Eq)]
pub struct AudioAlbum {
    pub path: Option<String>,
    pub album_id: Option<u64>,
    pub name: Option<String>,
    pub artist_id: Option<u64>,
    pub artist: Option<String>,
    pub year: Option<u32>,
    /// Album-art thumbnail bytes, when fetched.
    pub thumbnail: Option<Vec<u8>>,
    /// Whether the phone failed to produce a thumbnail.
    pub thumbnail_error: bool,
}

/// A snapshot of the phone photo library.
#[derive(Debug, Clone, PartialEq, Eq)]
pub struct PhotoLibrary {
    pub images: Vec<ImageFile>,
    pub albums: Vec<ImageAlbum>,
    /// Media-store id of the camera album, when reported.
    pub camera_album_id: Option<u64>,
}

/// Phone-side push callbacks requested with the initial device-info request.
#[derive(Debug, Clone, Copy, PartialEq, Eq, Default, Structural)]
pub struct EventCallbacks {
    pub device_info: bool,
    pub photo_library: bool,
    pub audio_library: bool,
    pub video_library: bool,
}

/// Options controlling a connection.
#[derive(Debug, Clone, PartialEq, Eq)]
pub struct ClientOptions {
    /// Timeout in milliseconds for ADB commands, handshake, requests and transfers.
    pub timeout_ms: u64,
    /// Interval in milliseconds between keep-alive heartbeats.
    pub heartbeat_interval_ms: u64,
    /// Computer name reported to the phone; `None` falls back to the host name.
    pub host_name: Option<String>,
    /// Optional path for an explicit, sensitive wire log.
    pub wire_log: Option<String>,
    /// Dump payload bytes into the wire log (header-only when false).
    pub wire_log_payload: bool,
    /// Path to the adb executable.
    pub adb_path: String,
}

impl ClientOptions {
    /// Thirty-second timeout, ten-second heartbeat, no wire log, `adb` from PATH.
    pub fn new() -> (r: Self)
        ensures
            r.timeout_ms == 30_000,
            r.heartbeat_interval_ms == 10_000,
            r.host_name is None,
            r.wire_log is None,
            !r.wire_log_payload,
            r.adb_path@ == seq!['a', 'd', 'b'],
    {
        let adb = crate::text::string_from_chars(&['a', 'd', 'b']);
        ClientOptions {
            timeout_ms: 30_000,
            heartbeat_interval_ms: 10_000,
            host_name: None,
            wire_log: None,
            wire_log_payload: false,
            adb_path: adb,
        }
    }
}

/// Result of a heartbeat round trip.
#[derive(Debug, Clone, Copy, PartialEq, Eq, Structural)]
pub struct PingResult {
    /// Elapsed host-side round-trip time in milliseconds.
    pub round_trip_ms: u128,
    /// Timestamp echoed from the host request, when present.
    pub host_timestamp: Option<u64>,
    /// Timestamp supplied by the phone, when present.
    pub client_timestamp: Option<u64>,
}

/// The side that requested cancellation of a request.
#[derive(Debug, Clone, Copy, PartialEq, Eq, Structural)]
pub enum CancellationOrigin {
    /// The caller requested cancellation through a token.
    Local { flag_sent: bool },
    /// The phone sent a cancel request for this request.
    Remote { error_code: Option<i32> },
}

/// Details carried by a cancelled request error or event.
#[derive(Debug, Clone, Copy, PartialEq, Eq, Structural)]
pub struct CancellationInfo {
    /// Session id of the cancelled request.
    pub sid: u32,
    /// Local or phone-side cancellation source.
    pub origin: CancellationOrigin,
    /// Whether the connection had to be terminated for this cancellation.
    pub connection_closed: bool,
}

} // verus!
