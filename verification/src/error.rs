use vstd::prelude::*;

verus! {

/// Why a frame, response or message was refused on protocol grounds.
#[derive(Debug, Clone, Copy, PartialEq, Eq, Structural)]
pub enum ProtocolFault {
    /// An upstream payload longer than the frame format allows.
    UpstreamTooLarge,
    /// A downstream chunk header declared more bytes than the verified limit.
    DownstreamTooLarge,
    /// A length-prefixed response declared a total above its cap.
    ResponseLengthTooLarge,
    /// More bytes arrived than the length prefix announced.
    ResponseTooLong,
    /// A handshake response arrived on an unexpected session id.
    SessionIdMismatch,
    /// A pushed message declared or accumulated more than the push cap.
    EventLengthTooLarge,
    /// A pushed message carried more bytes than its prefix announced.
    EventTooLong,
    /// A raw download chunk sequence looks exactly like an enveloped message.
    DownloadAmbiguous,
    /// A media response exceeded its size cap.
    MediaResponseTooLarge,
    /// A phone path escapes the directory it must stay under.
    PathOutsideRoot,
    /// The downloaded data does not match the checksum the phone announced.
    ChecksumMismatch,
    /// A compressed clipboard entry could not be decompressed as text.
    ClipboardUndecodable,
    /// A download header carried no length.
    MissingLength,
    /// The phone refused a metadata update.
    UpdateRejected,
    /// A remote file is larger than the limit for reading it into memory.
    FileTooLarge,
    /// A create-directory answer carried no file.
    MissingCreatedFile,
    /// A pushed message could not be decoded.
    Undecodable,
    /// A raw download delivered more bytes than announced.
    DownloadTooLong,
    /// No free session id was found.
    SidExhausted,
    /// A normal answer was awaited after a raw download began.
    RawAfterDownload,
}

/// Errors of the library, grouped the way callers react to them.
#[derive(Debug, Clone, PartialEq, Eq, Structural)]
pub enum Error {
    /// The phone or the byte stream broke the protocol.
    Protocol(ProtocolFault),
    /// The caller passed an argument the operation cannot accept.
    Usage(UsageFault),
    /// A phone-side file operation failed.
    RemoteIo { code: Option<i32> },
    /// Local configuration or ledger state is unusable.
    Configuration(ConfigFault),
    /// The handshake was refused by the phone.
    Handshake(HandshakeFault),
    /// A batch was interrupted by cancellation.
    Interrupted,
    /// A local file operation cannot proceed.
    LocalIo(LocalFault),
    /// The connection or its transport failed.
    Transport(TransportFault),
    /// The request was cancelled, locally or by the phone.
    Cancelled(crate::domain::CancellationInfo),
}

/// The class of an error, one per kind of `Error`, for callers that need to
/// tell failures apart without reading their text.
#[derive(Debug, Clone, Copy, PartialEq, Eq, Structural)]
pub enum ErrorCode {
    Protocol,
    Usage,
    RemoteIo,
    Configuration,
    Handshake,
    Interrupted,
    LocalIo,
    Transport,
    Cancelled,
}

/// The class of an error: its kind.
pub open spec fn code_of(e: Error) -> ErrorCode {
    match e {
        Error::Protocol(_) => ErrorCode::Protocol,
        Error::Usage(_) => ErrorCode::Usage,
        Error::RemoteIo { .. } => ErrorCode::RemoteIo,
        Error::Configuration(_) => ErrorCode::Configuration,
        Error::Handshake(_) => ErrorCode::Handshake,
        Error::Interrupted => ErrorCode::Interrupted,
        Error::LocalIo(_) => ErrorCode::LocalIo,
        Error::Transport(_) => ErrorCode::Transport,
        Error::Cancelled(_) => ErrorCode::Cancelled,
    }
}

impl Error {
    /// The class of this error (see `code_of`).
    pub fn code(&self) -> (r: ErrorCode)
        ensures
            r == code_of(*self),
    {
        match self {
            Error::Protocol(_) => ErrorCode::Protocol,
            Error::Usage(_) => ErrorCode::Usage,
            Error::RemoteIo { .. } => ErrorCode::RemoteIo,
            Error::Configuration(_) => ErrorCode::Configuration,
            Error::Handshake(_) => ErrorCode::Handshake,
            Error::Interrupted => ErrorCode::Interrupted,
            Error::LocalIo(_) => ErrorCode::LocalIo,
            Error::Transport(_) => ErrorCode::Transport,
            Error::Cancelled(_) => ErrorCode::Cancelled,
        }
    }
}

/// Local file errors.
#[derive(Debug, Clone, Copy, PartialEq, Eq, Structural)]
pub enum LocalFault {
    /// The local target exists and overwriting was not asked for.
    TargetExists,
    /// The local source is not a regular file.
    NotRegularFile,
    /// A local path with no usable file name.
    PathNameRequired,
    /// A local file system operation failed.
    Io,
    /// No USB accessory at the requested location.
    NoAccessory,
    /// No location given and not exactly one USB accessory attached.
    AmbiguousAccessory,
    /// The USB accessory has no bulk IN/OUT endpoint pair.
    NoEndpoints,
}

/// Transport errors.
#[derive(Debug, Clone, Copy, PartialEq, Eq, Structural)]
pub enum TransportFault {
    /// The connection is closed.
    Closed,
    /// A USB operation failed.
    Usb,
    /// The USB device is gone.
    UsbGone,
    /// The USB device is busy (claimed elsewhere).
    UsbBusy,
    /// A USB endpoint stalled.
    UsbPipe,
}

/// Argument errors.
#[derive(Debug, Clone, Copy, PartialEq, Eq, Structural)]
pub enum UsageFault {
    /// A remote path without any `/` separator.
    RemotePathDirectoryRequired,
    /// A remote path that ends in `/` and so names no file.
    RemotePathNameRequired,
    /// Batch concurrency outside `1..=8`.
    BatchConcurrencyRange,
    /// A media page limit outside `1..=MEDIA_PAGE_MAX_LIMIT`.
    PageLimitRange,
    /// A thumbnail entry with neither a path nor a category id.
    ThumbnailIdentityRequired,
    /// A sync profile without a device identity.
    DeviceUuidRequired,
    /// A sync profile without a local root.
    LocalRootRequired,
}

/// Configuration and ledger errors.
#[derive(Debug, Clone, Copy, PartialEq, Eq, Structural)]
pub enum ConfigFault {
    /// A ledger file with an unsupported schema version.
    VersionUnsupported,
    /// A ledger file that belongs to another device.
    IdentityMismatch,
    /// A legacy ledger whose owner cannot be proven from its name.
    LegacyIdentityUnverified,
    /// A journal naming a relative path or one with `..`.
    JournalUnsafe,
    /// A ledger path without a parent directory.
    ParentMissing,
    /// A ledger or journal file that could not be read or parsed.
    Unreadable,
}

/// Handshake refusals.
#[derive(Debug, Clone, Copy, PartialEq, Eq, Structural)]
pub enum HandshakeFault {
    /// The phone rejected the public key.
    PublicKeyRejected,
    /// The phone is locked.
    PhoneLocked,
    /// The phone asks the user to authorize the host.
    AuthorizationRequired,
    /// The decrypted handshake result was not `ok`.
    ResultInvalid,
}

} // verus!
