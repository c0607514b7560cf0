//! The photo-sync ledger's location and loading rules.
//!
//! A device's ledger lives at `<config>/sync/<sha256(device_uuid)>.json`:
//! the file name is the hex SHA-256 of the raw identifier, so two devices
//! never share a file. The file carries the identifier and is refused when
//! it names another device. A legacy ledger, named by the sanitized
//! identifier, is migrated only when that name proves the identity (the
//! sanitized identifier is the identifier itself).
use vstd::prelude::*;


use crate::domain::SyncConfig;
use crate::error::{ConfigFault, Error};
use crate::paths::join_path;
use crate::snapshot::SyncSnapshot;
use crate::digest::sha256_digest;
use crate::text::{append_str, chars_of, copy_string, hex_bytes, name_chars, owned, str_eq, string_from_chars};

verus! {

/// Schema version of the ledger file written today.
pub const LEDGER_SCHEMA_VERSION: u32 = 2;

/// Schema version of the legacy ledger file.
pub const LEGACY_SCHEMA_VERSION: u32 = 1;

/// Ledger file key of a device identifier: lowercase hex SHA-256 of its
/// UTF-8 bytes.
pub open spec fn ledger_key_of(device_uuid: Seq<char>) -> Seq<char> {
    hex_bytes(sha256_digest(vstd::utf8::encode_utf8(device_uuid)))
}

/// `.json`.
pub open spec fn json_suffix() -> Seq<char> {
    seq!['.', 'j', 's', 'o', 'n']
}

/// `sync`.
pub open spec fn sync_dir_name() -> Seq<char> {
    seq!['s', 'y', 'n', 'c']
}

/// `.legacy.bak`.
pub open spec fn backup_suffix() -> Seq<char> {
    seq!['.', 'l', 'e', 'g', 'a', 'c', 'y', '.', 'b', 'a', 'k']
}

/// Lossless file-name key for a device identifier (see `ledger_key_of`):
/// 64 hex digits, distinct for distinct identifiers as far as SHA-256 is.
pub fn ledger_key(device_uuid: &str) -> (r: String)
    ensures
        r@ == ledger_key_of(device_uuid@),
{
    crate::digest::sha256_hex(device_uuid.as_bytes())
}

/// Keep only ASCII letters, digits, `-` and `_`: the legacy file-name form
/// of a device identifier, which can never leave the ledger directory.
pub fn sanitize_device_uuid(device_uuid: &str) -> (r: String)
    ensures
        r@ == name_chars(device_uuid@),
{
    let cs = crate::text::keep_name_chars(device_uuid);
    string_from_chars(cs.as_slice())
}

/// The host identifier sent as `pc_id` in the photo-sync request: the
/// host UUID as it is, so it is stable across runs on one host.
pub fn pc_id_from_host_uuid(host_uuid: &str) -> (r: String)
    ensures
        r@ == host_uuid@,
{
    owned(host_uuid)
}

/// A sync configuration with its `pc_id` derived from the host UUID.
pub fn sync_config(device_uuid: &str, phone_root: &str, local_root: &str, host_uuid: &str) -> (r: SyncConfig)
    ensures
        r.device_uuid@ == device_uuid@,
        r.phone_root@ == phone_root@,
        r.local_root@ == local_root@,
        r.pc_id@ == host_uuid@,
{
    SyncConfig {
        device_uuid: owned(device_uuid),
        phone_root: owned(phone_root),
        local_root: owned(local_root),
        pc_id: pc_id_from_host_uuid(host_uuid),
    }
}

/// Where a ledger is read from.
#[derive(Debug, Clone, PartialEq, Eq)]
pub enum LedgerSource {
    /// No sync has run for this device.
    Absent,
    /// The current ledger file.
    Current,
    /// The legacy file at this path, to migrate.
    Legacy(String),
}

/// The persistent sync ledger of one device.
#[derive(Debug)]
pub struct SyncStore {
    path: String,
    sync_dir: String,
    device_uuid: String,
}

impl SyncStore {
    /// The ledger file path.
    pub closed spec fn spec_path(&self) -> Seq<char> {
        self.path@
    }

    /// The directory holding the ledger files.
    pub closed spec fn spec_sync_dir(&self) -> Seq<char> {
        self.sync_dir@
    }

    /// The device this ledger belongs to.
    pub closed spec fn spec_device(&self) -> Seq<char> {
        self.device_uuid@
    }

    /// Ledger of `device_uuid` under a config directory:
    /// `<config_dir>/sync/<ledger_key(device_uuid)>.json`.
    pub fn discover(config_dir: &str, device_uuid: &str) -> (r: Self)
        ensures
            r.spec_sync_dir() == join_path(config_dir@, sync_dir_name()),
            r.spec_path() == join_path(
                join_path(config_dir@, sync_dir_name()),
                ledger_key_of(device_uuid@) + json_suffix(),
            ),
            r.spec_device() == device_uuid@,
    {
        let mut dir: Vec<char> = Vec::new();
        crate::paths::push_join_base(&mut dir, &chars_of(config_dir));
        append_str(&mut dir, "sync");
        proof {
            reveal_strlit("sync");
            assert(dir@ =~= join_path(config_dir@, sync_dir_name()));
        }
        let mut file: Vec<char> = Vec::new();
        crate::paths::push_join_base(&mut file, &dir);
        let key = ledger_key(device_uuid);
        append_str(&mut file, key.as_str());
        append_str(&mut file, ".json");
        proof {
            reveal_strlit(".json");
            assert(file@ =~= join_path(dir@, ledger_key_of(device_uuid@) + json_suffix()));
        }
        SyncStore {
            path: string_from_chars(file.as_slice()),
            sync_dir: string_from_chars(dir.as_slice()),
            device_uuid: owned(device_uuid),
        }
    }

    /// The ledger file path.
    pub fn path(&self) -> (r: &str)
        ensures
            r@ == self.spec_path(),
    {
        self.path.as_str()
    }

    /// The device this ledger belongs to.
    pub fn device_uuid(&self) -> (r: &str)
        ensures
            r@ == self.spec_device(),
    {
        self.device_uuid.as_str()
    }

    /// Legacy ledger path for a device under a ledger directory:
    /// `<sync_dir>/<sanitize(device_uuid)>.json`.
    pub fn legacy_v1_path(sync_dir: &str, device_uuid: &str) -> (r: String)
        ensures
            r@ == join_path(sync_dir@, name_chars(device_uuid@) + json_suffix()),
    {
        let mut out: Vec<char> = Vec::new();
        crate::paths::push_join_base(&mut out, &chars_of(sync_dir));
        let name = crate::text::keep_name_chars(device_uuid);
        crate::text::append_chars(&mut out, &name);
        append_str(&mut out, ".json");
        proof {
            reveal_strlit(".json");
            assert(out@ =~= join_path(sync_dir@, name_chars(device_uuid@) + json_suffix()));
        }
        string_from_chars(out.as_slice())
    }

    /// This device's legacy ledger path.
    pub fn legacy_path(&self) -> (r: String)
        ensures
            r@ == join_path(self.spec_sync_dir(), name_chars(self.spec_device()) + json_suffix()),
    {
        Self::legacy_v1_path(self.sync_dir.as_str(), self.device_uuid.as_str())
    }

    /// Where a migrated legacy file is kept: its name with the `json`
    /// extension replaced by `json.legacy.bak` (appended when the name,
    /// being `.json` alone, has no extension).
    pub fn legacy_backup_path(&self) -> (r: String)
        ensures
            r@ == if name_chars(self.spec_device()).len() > 0 {
                join_path(self.spec_sync_dir(), name_chars(self.spec_device()) + json_suffix()) + backup_suffix()
            } else {
                join_path(self.spec_sync_dir(), name_chars(self.spec_device()) + json_suffix()) + json_suffix()
                    + backup_suffix()
            },
    {
        let legacy = self.legacy_path();
        let name = crate::text::keep_name_chars(self.device_uuid.as_str());
        let mut out = chars_of(legacy.as_str());
        if name.len() == 0 {
            append_str(&mut out, ".json");
        }
        append_str(&mut out, ".legacy.bak");
        proof {
            reveal_strlit(".json");
            reveal_strlit(".legacy.bak");
            assert(backup_suffix() =~= ".legacy.bak"@);
        }
        string_from_chars(out.as_slice())
    }

    /// Where to load the ledger from, given whether the current and the
    /// legacy file exist. The current file wins; a legacy file is used only
    /// when its name proves the identity (the sanitized identifier is the
    /// identifier), and is otherwise refused rather than guessed.
    pub fn load(&self, current_exists: bool, legacy_exists: bool) -> (r: Result<LedgerSource, Error>)
        ensures
            current_exists ==> r == Ok::<LedgerSource, Error>(LedgerSource::Current),
            !current_exists && !legacy_exists ==> r == Ok::<LedgerSource, Error>(LedgerSource::Absent),
            !current_exists && legacy_exists && name_chars(self.spec_device()) != self.spec_device() ==> r
                == Err::<LedgerSource, Error>(Error::Configuration(ConfigFault::LegacyIdentityUnverified)),
            !current_exists && legacy_exists && name_chars(self.spec_device()) == self.spec_device() ==> (
            r matches Ok(LedgerSource::Legacy(p)) && p@ == join_path(
                self.spec_sync_dir(),
                name_chars(self.spec_device()) + json_suffix(),
            )),
    {
        if current_exists {
            return Ok(LedgerSource::Current);
        }
        if !legacy_exists {
            return Ok(LedgerSource::Absent);
        }
        let sanitized = sanitize_device_uuid(self.device_uuid.as_str());
        if !str_eq(sanitized.as_str(), self.device_uuid.as_str()) {
            return Err(Error::Configuration(ConfigFault::LegacyIdentityUnverified));
        }
        Ok(LedgerSource::Legacy(self.legacy_path()))
    }

    /// Accept a parsed current ledger file: its schema version must be the
    /// current one and it must name this device.
    pub fn accept_current(&self, schema_version: u32, device_uuid: &str, snapshot: SyncSnapshot) -> (r: Result<
        SyncSnapshot,
        Error,
    >)
        ensures
            schema_version != LEDGER_SCHEMA_VERSION ==> r == Err::<SyncSnapshot, Error>(
                Error::Configuration(ConfigFault::VersionUnsupported),
            ),
            schema_version == LEDGER_SCHEMA_VERSION && device_uuid@ != self.spec_device() ==> r
                == Err::<SyncSnapshot, Error>(Error::Configuration(ConfigFault::IdentityMismatch)),
            schema_version == LEDGER_SCHEMA_VERSION && device_uuid@ == self.spec_device() ==> r
                == Ok::<SyncSnapshot, Error>(snapshot),
    {
        if schema_version != LEDGER_SCHEMA_VERSION {
            return Err(Error::Configuration(ConfigFault::VersionUnsupported));
        }
        if !str_eq(device_uuid, self.device_uuid.as_str()) {
            return Err(Error::Configuration(ConfigFault::IdentityMismatch));
        }
        Ok(snapshot)
    }
}

/// Accept a parsed legacy ledger file: its schema version must be the
/// legacy one.
pub fn accept_legacy(schema_version: u32, snapshot: SyncSnapshot) -> (r: Result<SyncSnapshot, Error>)
    ensures
        schema_version != LEGACY_SCHEMA_VERSION ==> r == Err::<SyncSnapshot, Error>(
            Error::Configuration(ConfigFault::VersionUnsupported),
        ),
        schema_version == LEGACY_SCHEMA_VERSION ==> r == Ok::<SyncSnapshot, Error>(snapshot),
{
    if schema_version != LEGACY_SCHEMA_VERSION {
        return Err(Error::Configuration(ConfigFault::VersionUnsupported));
    }
    Ok(snapshot)
}

/// A legacy ledger is adopted only when its name is the identifier itself:
/// two identifiers that share a sanitized name can never both be adopted.
pub proof fn law_legacy_adoption_is_unambiguous(a: Seq<char>, b: Seq<char>)
    requires
        name_chars(a) == a,
        name_chars(b) == b,
        name_chars(a) == name_chars(b),
    ensures
        a == b,
{
}

} // verus!
