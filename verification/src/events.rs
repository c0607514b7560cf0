//! Unsolicited messages pushed by the phone: which event a pushed body is,
//! and the typed events built from the decoded messages.
//!
//! A body with a known event type is decoded as that event's message. A
//! body whose type is missing or names no event family is tried against
//! every family, and is an event only when exactly one family decodes with
//! content; otherwise it is reported as unknown, carrying only its
//! metadata.
use vstd::prelude::*;

use std::io::Read;

use crate::domain::{ClipboardEntry, DeviceInfo, RemoteFile};
use crate::error::{Error, ProtocolFault};
use crate::remote::{remote_file, remote_from, SspFile};
use crate::text::{copy_opt_string, ostr, owned};

verus! {

/// The event families a pushed body can belong to.
#[derive(Debug, Clone, Copy, PartialEq, Eq, Structural)]
pub enum EventFamily {
    /// Device information changed.
    DeviceInfo,
    /// The clipboard changed.
    Clipboard,
    /// The photo library changed.
    PhotoLibrary,
    /// The video library changed.
    VideoLibrary,
    /// The audio library changed.
    AudioLibrary,
    /// A monitored directory changed.
    Directory,
    /// Photo-sync file changes.
    FileChange,
    /// Photo-sync state.
    PhotoSync,
    /// The sync monitor switched.
    SyncMonitor,
}

/// A known request type, as far as event decoding cares.
#[derive(Debug, Clone, Copy, PartialEq, Eq, Structural)]
pub enum RequestKind {
    /// The type of an event family.
    Family(EventFamily),
    /// A cancel request (handled elsewhere, never an event).
    Cancel,
    /// Any other known request type.
    Other,
}

/// How a body fares when decoded as one family's message.
#[derive(Debug, Clone, Copy, PartialEq, Eq, Structural)]
pub struct FamilyProbe {
    /// The body decodes as the family's message (for the clipboard: and
    /// every entry decompresses).
    pub decodes: bool,
    /// The decoded message carries the content that identifies the family
    /// when the body has no usable type.
    pub populated: bool,
}

/// What is known of one pushed body.
#[derive(Debug, Clone, Copy, PartialEq, Eq, Structural)]
pub struct PushProbe {
    /// The raw type field, when present.
    pub request_type: Option<i32>,
    /// The request type it names, when it is a known one.
    pub known: Option<RequestKind>,
    /// Device information.
    pub device_info: FamilyProbe,
    /// Clipboard.
    pub clipboard: FamilyProbe,
    /// Photo library.
    pub photo: FamilyProbe,
    /// Video library.
    pub video: FamilyProbe,
    /// Audio library.
    pub audio: FamilyProbe,
    /// Directory events.
    pub directory: FamilyProbe,
    /// File changes.
    pub file_change: FamilyProbe,
    /// Photo sync.
    pub photo_sync: FamilyProbe,
    /// Sync monitor.
    pub sync_monitor: FamilyProbe,
}

/// Why a pushed body is not an event.
#[derive(Debug, Clone, Copy, PartialEq, Eq, Structural)]
pub enum UnknownEventReason {
    /// Its type is not a known request type.
    UnknownRequestType,
    /// Its type is known but it did not decode as an event.
    DecodeFailed,
    /// It has no type and does not match exactly one family.
    MissingTypeAmbiguous,
}

/// What a pushed body is.
#[derive(Debug, Clone, Copy, PartialEq, Eq, Structural)]
pub enum PushDecision {
    /// An event of this family.
    Event(EventFamily),
    /// Not an event.
    Unknown(UnknownEventReason),
}

/// The probe of one family.
pub open spec fn probe_of(p: PushProbe, f: EventFamily) -> FamilyProbe {
    match f {
        EventFamily::DeviceInfo => p.device_info,
        EventFamily::Clipboard => p.clipboard,
        EventFamily::PhotoLibrary => p.photo,
        EventFamily::VideoLibrary => p.video,
        EventFamily::AudioLibrary => p.audio,
        EventFamily::Directory => p.directory,
        EventFamily::FileChange => p.file_change,
        EventFamily::PhotoSync => p.photo_sync,
        EventFamily::SyncMonitor => p.sync_monitor,
    }
}

/// The families in the order they are tried.
pub open spec fn families() -> Seq<EventFamily> {
    seq![
        EventFamily::DeviceInfo,
        EventFamily::Clipboard,
        EventFamily::PhotoLibrary,
        EventFamily::VideoLibrary,
        EventFamily::AudioLibrary,
        EventFamily::Directory,
        EventFamily::FileChange,
        EventFamily::PhotoSync,
        EventFamily::SyncMonitor,
    ]
}

/// Whether a family is a candidate for an untyped body.
pub open spec fn candidate(p: PushProbe, f: EventFamily) -> bool {
    probe_of(p, f).decodes && probe_of(p, f).populated
}

/// The candidate families of an untyped body, in trial order.
pub open spec fn candidates(p: PushProbe) -> Seq<EventFamily> {
    families().filter(|f: EventFamily| candidate(p, f))
}

/// The family of an untyped body: the only candidate, if exactly one.
pub open spec fn inferred(p: PushProbe) -> Option<EventFamily> {
    if candidates(p).len() == 1 {
        Some(candidates(p)[0])
    } else {
        None
    }
}

/// What a pushed body is: a typed body is an event of its family when it
/// decodes as that family; a cancel never is; an untyped body, or one of
/// another type, is the inferred family, if any. Otherwise it is unknown:
/// with an unrecognized type, with a recognized type that did not decode,
/// or without type.
pub open spec fn push_decision(p: PushProbe) -> PushDecision {
    let event = match p.known {
        Some(RequestKind::Family(f)) => if probe_of(p, f).decodes {
            Some(f)
        } else {
            None
        },
        Some(RequestKind::Cancel) => None,
        _ => inferred(p),
    };
    match event {
        Some(f) => PushDecision::Event(f),
        None => PushDecision::Unknown(
            match p.request_type {
                Some(_) => if p.known is None {
                    UnknownEventReason::UnknownRequestType
                } else {
                    UnknownEventReason::DecodeFailed
                },
                None => UnknownEventReason::MissingTypeAmbiguous,
            },
        ),
    }
}

fn probe_for(p: &PushProbe, f: EventFamily) -> (r: FamilyProbe)
    ensures
        r == probe_of(*p, f),
{
    match f {
        EventFamily::DeviceInfo => p.device_info,
        EventFamily::Clipboard => p.clipboard,
        EventFamily::PhotoLibrary => p.photo,
        EventFamily::VideoLibrary => p.video,
        EventFamily::AudioLibrary => p.audio,
        EventFamily::Directory => p.directory,
        EventFamily::FileChange => p.file_change,
        EventFamily::PhotoSync => p.photo_sync,
        EventFamily::SyncMonitor => p.sync_monitor,
    }
}

fn family_at(i: usize) -> (r: EventFamily)
    requires
        i < 9,
    ensures
        r == families()[i as int],
{
    if i == 0 {
        EventFamily::DeviceInfo
    } else if i == 1 {
        EventFamily::Clipboard
    } else if i == 2 {
        EventFamily::PhotoLibrary
    } else if i == 3 {
        EventFamily::VideoLibrary
    } else if i == 4 {
        EventFamily::AudioLibrary
    } else if i == 5 {
        EventFamily::Directory
    } else if i == 6 {
        EventFamily::FileChange
    } else if i == 7 {
        EventFamily::PhotoSync
    } else {
        EventFamily::SyncMonitor
    }
}

/// The family of a body without a usable type (see `inferred`): the only
/// family it decodes as with content, or `None` when there are none or
/// several.
pub fn infer_event(p: &PushProbe) -> (r: Option<EventFamily>)
    ensures
        r == inferred(*p),
{
    let ghost fs = families();
    let mut found: Vec<EventFamily> = Vec::new();
    let mut i: usize = 0;
    assert(fs.len() == 9);
    assert(fs.subrange(0, 0).filter(|f: EventFamily| candidate(*p, f)) =~= Seq::<EventFamily>::empty()) by {
        reveal(Seq::filter);
    }
    while i < 9
        invariant
            i <= 9,
            fs == families(),
            fs.len() == 9,
            found@ == fs.subrange(0, i as int).filter(|f: EventFamily| candidate(*p, f)),
        decreases 9 - i,
    {
        let f = family_at(i);
        let pr = probe_for(p, f);
        proof {
            fs.subrange(0, i as int).lemma_filter_push(f, |f: EventFamily| candidate(*p, f));
        }
        assert(fs.subrange(0, i as int + 1) =~= fs.subrange(0, i as int).push(f));
        if pr.decodes && pr.populated {
            found.push(f);
        }
        i = i + 1;
    }
    assert(fs.subrange(0, 9) =~= fs);
    if found.len() == 1 {
        Some(found[0])
    } else {
        None
    }
}

/// What a pushed body is (see `push_decision`).
pub fn decode_event(p: &PushProbe) -> (r: PushDecision)
    ensures
        r == push_decision(*p),
{
    let event = match p.known {
        Some(RequestKind::Family(f)) => {
            if probe_for(p, f).decodes {
                Some(f)
            } else {
                None
            }
        },
        Some(RequestKind::Cancel) => None,
        _ => infer_event(p),
    };
    match event {
        Some(f) => PushDecision::Event(f),
        None => PushDecision::Unknown(
            match p.request_type {
                Some(_) => if p.known.is_none() {
                    UnknownEventReason::UnknownRequestType
                } else {
                    UnknownEventReason::DecodeFailed
                },
                None => UnknownEventReason::MissingTypeAmbiguous,
            },
        ),
    }
}

/// A decoded cancel message.
#[derive(Debug, Clone, Copy, PartialEq, Eq, Structural)]
pub struct CancelMessage {
    /// Whether its type is the cancel request type.
    pub is_cancel_type: bool,
    /// The session it cancels.
    pub session_id: Option<u64>,
    /// Why the phone cancels it.
    pub error_code: Option<i32>,
}

/// A phone-side cancellation: a body that decodes as a cancel message of
/// the cancel type and names a session.
pub fn decode_cancel(decoded: Option<CancelMessage>) -> (r: Option<CancelMessage>)
    ensures
        r == match decoded {
            Some(m) => if m.is_cancel_type && m.session_id is Some {
                Some(m)
            } else {
                None
            },
            None => None,
        },
{
    match decoded {
        Some(m) => {
            if m.is_cancel_type && m.session_id.is_some() {
                Some(m)
            } else {
                None
            }
        },
        None => None,
    }
}

/// The device-information message.
#[derive(Debug, Clone, PartialEq, Eq)]
pub struct DeviceInfoResponse {
    /// Phone UUID.
    pub phone_id: Option<String>,
    /// Phone name.
    pub phone_name: Option<String>,
    /// Phone model.
    pub phone_model: Option<String>,
    /// Brand.
    pub product_brand: Option<String>,
    /// Manufacturer.
    pub product_manufacturer: Option<String>,
    /// System version.
    pub smartisan_version: Option<String>,
    /// App version code.
    pub apk_version: Option<String>,
    /// App version name.
    pub apk_version_name: Option<String>,
    /// Storage root.
    pub root_path: Option<String>,
    /// External storage root.
    pub external_storage_path: Option<String>,
    /// Disk size.
    pub disk_size: Option<u64>,
    /// Used disk size.
    pub used_disk_size: Option<u64>,
    /// Battery level.
    pub battery_percentage: Option<u32>,
    /// Whether the phone is locked.
    pub phone_locked: Option<bool>,
}

/// `/sdcard`, the storage root when the phone names none.
pub open spec fn default_root() -> Seq<char> {
    seq!['/', 's', 'd', 'c', 'a', 'r', 'd']
}

/// Whether `d` carries the message's fields for `serial` (the app version
/// name only when `with_version_name`).
pub open spec fn device_from(d: DeviceInfo, m: DeviceInfoResponse, serial: Seq<char>, with_version_name: bool) -> bool {
    &&& d.serial@ == serial
    &&& ostr(d.phone_id) == ostr(m.phone_id)
    &&& ostr(d.name) == ostr(m.phone_name)
    &&& ostr(d.model) == ostr(m.phone_model)
    &&& ostr(d.brand) == ostr(m.product_brand)
    &&& ostr(d.manufacturer) == ostr(m.product_manufacturer)
    &&& ostr(d.smartisan_version) == ostr(m.smartisan_version)
    &&& ostr(d.apk_version) == ostr(m.apk_version)
    &&& ostr(d.apk_version_name) == if with_version_name {
        ostr(m.apk_version_name)
    } else {
        None
    }
    &&& d.root_path@ == match ostr(m.root_path) {
        Some(r) => r,
        None => default_root(),
    }
    &&& ostr(d.external_storage_path) == ostr(m.external_storage_path)
    &&& d.disk_size == m.disk_size
    &&& d.used_disk_size == m.used_disk_size
    &&& d.battery_percentage == m.battery_percentage
    &&& d.phone_locked == m.phone_locked
}

fn device_from_message(m: &DeviceInfoResponse, serial: &str, with_version_name: bool) -> (r: DeviceInfo)
    ensures
        device_from(r, *m, serial@, with_version_name),
{
    let root = match &m.root_path {
        Some(r) => crate::text::copy_string(r),
        None => {
            let r = owned("/sdcard");
            proof {
                reveal_strlit("/sdcard");
            }
            assert(r@ =~= default_root());
            r
        },
    };
    DeviceInfo {
        serial: owned(serial),
        phone_id: copy_opt_string(&m.phone_id),
        name: copy_opt_string(&m.phone_name),
        model: copy_opt_string(&m.phone_model),
        brand: copy_opt_string(&m.product_brand),
        manufacturer: copy_opt_string(&m.product_manufacturer),
        smartisan_version: copy_opt_string(&m.smartisan_version),
        apk_version: copy_opt_string(&m.apk_version),
        apk_version_name: if with_version_name {
            copy_opt_string(&m.apk_version_name)
        } else {
            None
        },
        root_path: root,
        external_storage_path: copy_opt_string(&m.external_storage_path),
        disk_size: m.disk_size,
        used_disk_size: m.used_disk_size,
        battery_percentage: m.battery_percentage,
        phone_locked: m.phone_locked,
    }
}

/// Device information pushed by the phone: the message's fields, the root
/// defaulting to `/sdcard`; a pushed message carries no app version name.
pub fn device_info(m: &DeviceInfoResponse, serial: &str) -> (r: DeviceInfo)
    ensures
        device_from(r, *m, serial@, false),
{
    device_from_message(m, serial, false)
}

/// Device information answered to the connection's request: the message's
/// fields, the root defaulting to `/sdcard`.
pub fn device_info_from_response(m: &DeviceInfoResponse, serial: &str) -> (r: DeviceInfo)
    ensures
        device_from(r, *m, serial@, true),
{
    device_from_message(m, serial, true)
}

/// Whether an untyped body looks like device information.
pub fn device_info_populated(m: &DeviceInfoResponse) -> (r: bool)
    ensures
        r == (m.phone_id is Some || m.phone_name is Some || m.phone_model is Some || m.root_path is Some),
{
    m.phone_id.is_some() || m.phone_name.is_some() || m.phone_model.is_some() || m.root_path.is_some()
}

/// The text a gzip stream decompresses to (the value `flate2`'s
/// `GzDecoder` reads to a string), or `None` when it is not a gzip stream
/// of UTF-8 text.
pub uninterp spec fn gunzip_text(data: Seq<u8>) -> Option<Seq<char>>;

/// `flate2::read::GzDecoder::read_to_string` over `data`: the decompressed
/// text, or `None` on a corrupt stream or text that is not UTF-8.
#[verifier::external_body]
fn gunzip_to_string(data: &[u8]) -> (r: Option<String>)
    ensures
        match r {
            Some(s) => gunzip_text(data@) == Some(s@),
            None => gunzip_text(data@) is None,
        },
{
    let mut text = String::new();
    match flate2::read::GzDecoder::new(data).read_to_string(&mut text) {
        Ok(_) => Some(text),
        Err(_) => None,
    }
}

/// The gzip stream `flate2`'s `GzEncoder` writes for `data` at the default
/// compression level.
pub uninterp spec fn gzip_bytes(data: Seq<u8>) -> Seq<u8>;

/// `flate2::write::GzEncoder` at the default level over `data`, written
/// into a `Vec` (which never fails): the compressed stream. The `None`
/// arm passes on an encoder error, which flate2 does not raise here.
#[verifier::external_body]
fn gzip(data: &[u8]) -> (r: Option<Vec<u8>>)
    ensures
        r is Some,
        r matches Some(v) ==> v@ == gzip_bytes(data@),
{
    let mut encoder = flate2::write::GzEncoder::new(Vec::new(), flate2::Compression::default());
    match std::io::Write::write_all(&mut encoder, data) {
        Ok(()) => {},
        Err(_) => return None,
    }
    encoder.finish().ok()
}

/// A clipboard entry as the phone sends it.
#[derive(Debug, Clone, PartialEq, Eq)]
pub struct SspClipboard {
    /// Gzip-compressed text.
    pub content: Option<Vec<u8>>,
    /// Millisecond timestamp.
    pub mstimestamp: Option<i64>,
}

/// The bytes of a clipboard entry: empty when absent.
pub open spec fn content_bytes(c: SspClipboard) -> Seq<u8> {
    match c.content {
        Some(v) => v@,
        None => Seq::empty(),
    }
}

/// Decompress one clipboard entry; the timestamp defaults to zero. A
/// stream that does not decompress to text is a protocol error.
pub fn decode_clipboard(clipboard: &SspClipboard) -> (r: Result<ClipboardEntry, Error>)
    ensures
        gunzip_text(content_bytes(*clipboard)) is None ==> r == Err::<ClipboardEntry, Error>(
            Error::Protocol(ProtocolFault::ClipboardUndecodable),
        ),
        gunzip_text(content_bytes(*clipboard)) matches Some(t) ==> (r matches Ok(e) && e.text@ == t
            && e.timestamp_ms == match clipboard.mstimestamp {
            Some(ts) => ts,
            None => 0,
        }),
{
    let empty: Vec<u8> = Vec::new();
    let data = match &clipboard.content {
        Some(v) => v.as_slice(),
        None => empty.as_slice(),
    };
    match gunzip_to_string(data) {
        Some(text) => Ok(
            ClipboardEntry {
                text,
                timestamp_ms: match clipboard.mstimestamp {
                    Some(ts) => ts,
                    None => 0,
                },
            },
        ),
        None => Err(Error::Protocol(ProtocolFault::ClipboardUndecodable)),
    }
}

/// The entries of a clipboard change, all decompressed, or `None` when one
/// of them does not decompress.
pub fn clipboard_change(entries: &[SspClipboard]) -> (r: Option<Vec<ClipboardEntry>>)
    ensures
        r is Some <==> forall|i: int| 0 <= i < entries@.len() ==> gunzip_text(content_bytes(#[trigger] entries@[i])) is Some,
        r matches Some(v) ==> v@.len() == entries@.len() && forall|i: int|
            0 <= i < entries@.len() ==> gunzip_text(content_bytes(#[trigger] entries@[i])) == Some(v@[i].text@)
                && v@[i].timestamp_ms == match entries@[i].mstimestamp {
                Some(ts) => ts,
                None => 0,
            },
{
    let mut out: Vec<ClipboardEntry> = Vec::new();
    let mut i: usize = 0;
    while i < entries.len()
        invariant
            i <= entries@.len(),
            out@.len() == i,
            forall|j: int| 0 <= j < i ==> gunzip_text(content_bytes(#[trigger] entries@[j])) == Some(out@[j].text@)
                && out@[j].timestamp_ms == match entries@[j].mstimestamp {
                Some(ts) => ts,
                None => 0,
            },
        decreases entries@.len() - i,
    {
        match decode_clipboard(&entries[i]) {
            Ok(e) => {
                out.push(e);
            },
            Err(_) => {
                return None;
            },
        }
        i = i + 1;
    }
    Some(out)
}

/// The compressed payload sent when setting the clipboard: the gzip
/// stream of the text's UTF-8 bytes (compressing into memory does not
/// fail; an encoder error would be a local error).
pub fn clipboard_payload(text: &str) -> (r: Result<Vec<u8>, Error>)
    ensures
        r matches Ok(v) && v@ == gzip_bytes(vstd::utf8::encode_utf8(text@)),
{
    match gzip(text.as_bytes()) {
        Some(v) => Ok(v),
        None => Err(Error::LocalIo(crate::error::LocalFault::Io)),
    }
}

/// The clipboard entry with a timestamp: the first such entry.
pub fn find_clipboard(entries: &[SspClipboard], timestamp_ms: i64) -> (r: Result<usize, Error>)
    ensures
        r matches Ok(i) ==> i < entries@.len() && entries@[i as int].mstimestamp == Some(timestamp_ms)
            && forall|j: int| 0 <= j < i ==> entries@[j].mstimestamp != Some(timestamp_ms),
        r is Err <==> forall|j: int| 0 <= j < entries@.len() ==> entries@[j].mstimestamp != Some(timestamp_ms),
        r is Err ==> r == Err::<usize, Error>((Error::RemoteIo { code: None })),
{
    let mut i: usize = 0;
    while i < entries.len()
        invariant
            i <= entries@.len(),
            forall|j: int| 0 <= j < i ==> entries@[j].mstimestamp != Some(timestamp_ms),
        decreases entries@.len() - i,
    {
        if entries[i].mstimestamp == Some(timestamp_ms) {
            return Ok(i);
        }
        i = i + 1;
    }
    Err(Error::RemoteIo { code: None })
}

/// A directory event as the phone sends it.
#[derive(Debug, Clone, Copy, PartialEq, Eq, Structural)]
pub enum SspFileEventType {
    /// Created.
    FileEventCreate,
    /// Deleted.
    FileEventDelete,
    /// Closed after writing.
    FileEventCloseWrite,
    /// Moved away.
    FileEventMovedFrom,
    /// Moved in.
    FileEventMovedTo,
    /// The watched entry was deleted.
    FileEventDeleteSelf,
    /// The watched entry was moved.
    FileEventMoveSelf,
    /// The directory changed.
    FileEventDirChanged,
}

/// Kind of a directory event.
#[derive(Debug, Clone, Copy, PartialEq, Eq, Structural)]
pub enum FileEventKind {
    /// Created.
    Create,
    /// Deleted.
    Delete,
    /// Closed after writing.
    CloseWrite,
    /// Moved away.
    MovedFrom,
    /// Moved in.
    MovedTo,
    /// The watched entry was deleted.
    DeleteSelf,
    /// The watched entry was moved.
    MoveSelf,
    /// The directory changed.
    DirectoryChanged,
    /// A kind this library does not know.
    Unknown,
}

/// The public kind of a wire event type, one for one.
pub fn file_event_kind(value: SspFileEventType) -> (r: FileEventKind)
    ensures
        r == match value {
            SspFileEventType::FileEventCreate => FileEventKind::Create,
            SspFileEventType::FileEventDelete => FileEventKind::Delete,
            SspFileEventType::FileEventCloseWrite => FileEventKind::CloseWrite,
            SspFileEventType::FileEventMovedFrom => FileEventKind::MovedFrom,
            SspFileEventType::FileEventMovedTo => FileEventKind::MovedTo,
            SspFileEventType::FileEventDeleteSelf => FileEventKind::DeleteSelf,
            SspFileEventType::FileEventMoveSelf => FileEventKind::MoveSelf,
            SspFileEventType::FileEventDirChanged => FileEventKind::DirectoryChanged,
        },
{
    match value {
        SspFileEventType::FileEventCreate => FileEventKind::Create,
        SspFileEventType::FileEventDelete => FileEventKind::Delete,
        SspFileEventType::FileEventCloseWrite => FileEventKind::CloseWrite,
        SspFileEventType::FileEventMovedFrom => FileEventKind::MovedFrom,
        SspFileEventType::FileEventMovedTo => FileEventKind::MovedTo,
        SspFileEventType::FileEventDeleteSelf => FileEventKind::DeleteSelf,
        SspFileEventType::FileEventMoveSelf => FileEventKind::MoveSelf,
        SspFileEventType::FileEventDirChanged => FileEventKind::DirectoryChanged,
    }
}

/// A photo-sync file change state as the phone sends it.
#[derive(Debug, Clone, Copy, PartialEq, Eq, Structural)]
pub enum SspFileChangeStatus {
    /// No change.
    Unchanged,
    /// Added.
    Added,
    /// Deleted.
    Deleted,
    /// Content modified.
    Modified,
    /// Metadata modified.
    InfoModified,
    /// Content and metadata modified.
    FileAndInfoModified,
}

/// State of a photo-sync file change.
#[derive(Debug, Clone, Copy, PartialEq, Eq, Structural)]
pub enum FileChangeStatus {
    /// No change.
    Unchanged,
    /// Added.
    Added,
    /// Deleted.
    Deleted,
    /// Content modified.
    Modified,
    /// Metadata modified.
    InfoModified,
    /// Content and metadata modified.
    FileAndInfoModified,
    /// A state this library does not know.
    Unknown,
}

/// The public state of a wire change state, one for one.
pub fn file_change_status(value: SspFileChangeStatus) -> (r: FileChangeStatus)
    ensures
        r == match value {
            SspFileChangeStatus::Unchanged => FileChangeStatus::Unchanged,
            SspFileChangeStatus::Added => FileChangeStatus::Added,
            SspFileChangeStatus::Deleted => FileChangeStatus::Deleted,
            SspFileChangeStatus::Modified => FileChangeStatus::Modified,
            SspFileChangeStatus::InfoModified => FileChangeStatus::InfoModified,
            SspFileChangeStatus::FileAndInfoModified => FileChangeStatus::FileAndInfoModified,
        },
{
    match value {
        SspFileChangeStatus::Unchanged => FileChangeStatus::Unchanged,
        SspFileChangeStatus::Added => FileChangeStatus::Added,
        SspFileChangeStatus::Deleted => FileChangeStatus::Deleted,
        SspFileChangeStatus::Modified => FileChangeStatus::Modified,
        SspFileChangeStatus::InfoModified => FileChangeStatus::InfoModified,
        SspFileChangeStatus::FileAndInfoModified => FileChangeStatus::FileAndInfoModified,
    }
}

/// One directory event as the phone sends it.
#[derive(Debug, Clone, PartialEq, Eq)]
pub struct SspFileEvent {
    /// The file concerned.
    pub file: Option<SspFile>,
    /// Its event type, when it is a known one.
    pub event: Option<SspFileEventType>,
}

/// One directory event.
#[derive(Debug, Clone, PartialEq, Eq)]
pub struct FileEvent {
    /// The file concerned.
    pub file: Option<RemoteFile>,
    /// What happened.
    pub kind: FileEventKind,
}

/// One photo-sync file change as the phone sends it.
#[derive(Debug, Clone, PartialEq, Eq)]
pub struct SspFileChangeItem {
    /// The file concerned.
    pub file: Option<SspFile>,
    /// Its state, when it is a known one.
    pub status: Option<SspFileChangeStatus>,
}

/// One photo-sync file change.
#[derive(Debug, Clone, PartialEq, Eq)]
pub struct FileChange {
    /// The file concerned.
    pub file: Option<RemoteFile>,
    /// Its state.
    pub status: FileChangeStatus,
}

/// The directory events of a monitor message, in order: each file in its
/// public form, an unknown event type as `Unknown`.
pub fn directory_change(events: Vec<SspFileEvent>) -> (r: Vec<FileEvent>)
    ensures
        r@.len() == events@.len(),
        forall|i: int| 0 <= i < events@.len() ==> (#[trigger] r@[i]).kind == match events@[i].event {
            Some(e) => match e {
                SspFileEventType::FileEventCreate => FileEventKind::Create,
                SspFileEventType::FileEventDelete => FileEventKind::Delete,
                SspFileEventType::FileEventCloseWrite => FileEventKind::CloseWrite,
                SspFileEventType::FileEventMovedFrom => FileEventKind::MovedFrom,
                SspFileEventType::FileEventMovedTo => FileEventKind::MovedTo,
                SspFileEventType::FileEventDeleteSelf => FileEventKind::DeleteSelf,
                SspFileEventType::FileEventMoveSelf => FileEventKind::MoveSelf,
                SspFileEventType::FileEventDirChanged => FileEventKind::DirectoryChanged,
            },
            None => FileEventKind::Unknown,
        } && (r@[i].file is Some <==> events@[i].file is Some) && (r@[i].file matches Some(f) ==> remote_from(f, events@[i].file->0)),
{
    let mut out: Vec<FileEvent> = Vec::new();
    let mut i: usize = 0;
    let n = events.len();
    let ghost ev = events@;
    let mut rest = events;
    while i < n
        invariant
            i <= n,
            n == ev.len(),
            out@.len() == i,
            rest@ == ev.subrange(i as int, n as int),
            forall|k: int| 0 <= k < i ==> (#[trigger] out@[k]).kind == match ev[k].event {
                Some(e) => match e {
                    SspFileEventType::FileEventCreate => FileEventKind::Create,
                    SspFileEventType::FileEventDelete => FileEventKind::Delete,
                    SspFileEventType::FileEventCloseWrite => FileEventKind::CloseWrite,
                    SspFileEventType::FileEventMovedFrom => FileEventKind::MovedFrom,
                    SspFileEventType::FileEventMovedTo => FileEventKind::MovedTo,
                    SspFileEventType::FileEventDeleteSelf => FileEventKind::DeleteSelf,
                    SspFileEventType::FileEventMoveSelf => FileEventKind::MoveSelf,
                    SspFileEventType::FileEventDirChanged => FileEventKind::DirectoryChanged,
                },
                None => FileEventKind::Unknown,
            } && (out@[k].file is Some <==> ev[k].file is Some) && (out@[k].file matches Some(f) ==> remote_from(f, ev[k].file->0)),
        decreases n - i,
    {
        let e = rest.remove(0);
        assert(e == ev[i as int]);
        let kind = match e.event {
            Some(t) => file_event_kind(t),
            None => FileEventKind::Unknown,
        };
        let file = match e.file {
            Some(f) => Some(remote_file(f)),
            None => None,
        };
        out.push(FileEvent { file, kind });
        assert(rest@ =~= ev.subrange(i as int + 1, n as int));
        i = i + 1;
    }
    out
}

/// The file changes of a photo-sync change message, in order: each file
/// in its public form, an unknown state as `Unknown`.
pub fn file_change(items: Vec<SspFileChangeItem>) -> (r: Vec<FileChange>)
    ensures
        r@.len() == items@.len(),
        forall|i: int| 0 <= i < items@.len() ==> (#[trigger] r@[i]).status == match items@[i].status {
            Some(s) => match s {
                SspFileChangeStatus::Unchanged => FileChangeStatus::Unchanged,
                SspFileChangeStatus::Added => FileChangeStatus::Added,
                SspFileChangeStatus::Deleted => FileChangeStatus::Deleted,
                SspFileChangeStatus::Modified => FileChangeStatus::Modified,
                SspFileChangeStatus::InfoModified => FileChangeStatus::InfoModified,
                SspFileChangeStatus::FileAndInfoModified => FileChangeStatus::FileAndInfoModified,
            },
            None => FileChangeStatus::Unknown,
        } && (r@[i].file is Some <==> items@[i].file is Some) && (r@[i].file matches Some(f) ==> remote_from(f, items@[i].file->0)),
{
    let mut out: Vec<FileChange> = Vec::new();
    let mut i: usize = 0;
    let n = items.len();
    let ghost ev = items@;
    let mut rest = items;
    while i < n
        invariant
            i <= n,
            n == ev.len(),
            out@.len() == i,
            rest@ == ev.subrange(i as int, n as int),
            forall|k: int| 0 <= k < i ==> (#[trigger] out@[k]).status == match ev[k].status {
                Some(s) => match s {
                    SspFileChangeStatus::Unchanged => FileChangeStatus::Unchanged,
                    SspFileChangeStatus::Added => FileChangeStatus::Added,
                    SspFileChangeStatus::Deleted => FileChangeStatus::Deleted,
                    SspFileChangeStatus::Modified => FileChangeStatus::Modified,
                    SspFileChangeStatus::InfoModified => FileChangeStatus::InfoModified,
                    SspFileChangeStatus::FileAndInfoModified => FileChangeStatus::FileAndInfoModified,
                },
                None => FileChangeStatus::Unknown,
            } && (out@[k].file is Some <==> ev[k].file is Some) && (out@[k].file matches Some(f) ==> remote_from(f, ev[k].file->0)),
        decreases n - i,
    {
        let e = rest.remove(0);
        assert(e == ev[i as int]);
        let status = match e.status {
            Some(s) => file_change_status(s),
            None => FileChangeStatus::Unknown,
        };
        let file = match e.file {
            Some(f) => Some(remote_file(f)),
            None => None,
        };
        out.push(FileChange { file, status });
        assert(rest@ =~= ev.subrange(i as int + 1, n as int));
        i = i + 1;
    }
    out
}

} // verus!
