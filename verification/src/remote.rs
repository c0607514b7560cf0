//! Phone-side file operations: the SSP file record and its mapping to the
//! public model, the success checks applied to each answer, and the path
//! and size rules around downloads, uploads and tree transfers.
use vstd::prelude::*;

use crate::domain::{BatchTransferFailure, BatchTransferItem, BatchTransferResult, PhotoSyncResult, RemoteFile};
use crate::error::{code_of, Error, ErrorCode, LocalFault, ProtocolFault, UsageFault};
use crate::paths::{file_name_of, has_parent_segment, join_path, parent_dir_of, path_segments, trim_slashes};
use crate::text::{append_chars, append_str, chars_of, copy_opt_string, copy_string, ostr, owned, string_from_chars};

verus! {

/// Largest media-library or thumbnail answer accepted (64 MiB).
pub const MEDIA_RESPONSE_LIMIT: usize = 67108864;

/// Most bytes read into memory to parse a photo's EXIF data (32 MiB).
pub const EXIF_FETCH_LIMIT: u64 = 33554432;

/// Largest batch concurrency.
pub const MAX_BATCH_CONCURRENCY: usize = 8;

/// A file record as the phone sends and receives it.
#[derive(Debug, Clone, PartialEq, Eq)]
pub struct SspFile {
    /// Absolute phone path.
    pub path: Option<String>,
    /// Size in bytes.
    pub file_size: Option<u64>,
    /// Creation time.
    pub created_timestamp: Option<u64>,
    /// Modification time.
    pub modified_timestamp: Option<u64>,
    /// Whether it is a directory.
    pub is_directory: Option<bool>,
    /// Phone-side checksum.
    pub checksum: Option<String>,
    /// Whether it sits in the phone's trash.
    pub is_trash: Option<bool>,
    /// Phone-side id.
    pub id: Option<u64>,
    /// Opaque extension data.
    pub ext_data: Option<String>,
    /// Per-file outcome of a multi-file operation.
    pub succeed: Option<bool>,
    /// Per-file error code.
    pub error_code: Option<i32>,
}

/// An empty file record.
pub open spec fn blank_file() -> SspFile {
    SspFile {
        path: None,
        file_size: None,
        created_timestamp: None,
        modified_timestamp: None,
        is_directory: None,
        checksum: None,
        is_trash: None,
        id: None,
        ext_data: None,
        succeed: None,
        error_code: None,
    }
}

/// The public form of a phone file record: a missing path is empty, a
/// missing size is zero, a missing directory flag is false.
pub fn remote_file(file: SspFile) -> (r: RemoteFile)
    ensures
        r.path@ == match ostr(file.path) {
            Some(p) => p,
            None => Seq::empty(),
        },
        r.size == match file.file_size {
            Some(s) => s,
            None => 0,
        },
        r.created_at == file.created_timestamp,
        r.modified_at == file.modified_timestamp,
        r.is_directory == (file.is_directory == Some(true)),
        ostr(r.checksum) == ostr(file.checksum),
        r.is_trash == file.is_trash,
        r.id == file.id,
        ostr(r.ext_data) == ostr(file.ext_data),
{
    RemoteFile {
        path: match file.path {
            Some(p) => p,
            None => String::new(),
        },
        size: match file.file_size {
            Some(s) => s,
            None => 0,
        },
        created_at: file.created_timestamp,
        modified_at: file.modified_timestamp,
        is_directory: match file.is_directory {
            Some(d) => d,
            None => false,
        },
        checksum: file.checksum,
        is_trash: file.is_trash,
        id: file.id,
        ext_data: file.ext_data,
    }
}

/// A request record naming a path, with its directory flag and size.
pub fn ssp_file(path: &str, is_directory: bool, size: Option<u64>) -> (r: SspFile)
    ensures
        ostr(r.path) == Some(path@),
        r.file_size == size,
        r.is_directory == Some(is_directory),
        r.created_timestamp is None && r.modified_timestamp is None && r.checksum is None,
        r.is_trash is None && r.id is None && r.ext_data is None,
        r.succeed is None && r.error_code is None,
{
    SspFile {
        path: Some(owned(path)),
        file_size: size,
        created_timestamp: None,
        modified_timestamp: None,
        is_directory: Some(is_directory),
        checksum: None,
        is_trash: None,
        id: None,
        ext_data: None,
        succeed: None,
        error_code: None,
    }
}

/// The record sent to the phone for a public file: every field carried over.
pub fn ssp_file_from_remote(file: &RemoteFile) -> (r: SspFile)
    ensures
        ostr(r.path) == Some(file.path@),
        r.file_size == Some(file.size),
        r.created_timestamp == file.created_at,
        r.modified_timestamp == file.modified_at,
        r.is_directory == Some(file.is_directory),
        ostr(r.checksum) == ostr(file.checksum),
        r.is_trash == file.is_trash,
        r.id == file.id,
        ostr(r.ext_data) == ostr(file.ext_data),
        r.succeed is None && r.error_code is None,
{
    SspFile {
        path: Some(copy_string(&file.path)),
        file_size: Some(file.size),
        created_timestamp: file.created_at,
        modified_timestamp: file.modified_at,
        is_directory: Some(file.is_directory),
        checksum: copy_opt_string(&file.checksum),
        is_trash: file.is_trash,
        id: file.id,
        ext_data: copy_opt_string(&file.ext_data),
        succeed: None,
        error_code: None,
    }
}

/// A phone-side failure with the phone's error code.
pub fn remote_error(code: Option<i32>) -> (r: Error)
    ensures
        r == (Error::RemoteIo { code }),
{
    Error::RemoteIo { code }
}

/// An answer succeeded only when it says so explicitly; otherwise it is a
/// phone-side failure carrying the answer's error code.
pub fn ensure_remote_success(succeed: Option<bool>, code: Option<i32>) -> (r: Result<(), Error>)
    ensures
        succeed == Some(true) <==> r is Ok,
        succeed != Some(true) ==> r == Err::<(), Error>((Error::RemoteIo { code })),
{
    if succeed == Some(true) {
        return Ok(());
    }
    Err(remote_error(code))
}

/// A multi-file delete succeeded unless some file reports failure; the
/// first failing file's error code is reported.
pub fn ensure_deleted_files_succeeded(files: &[SspFile]) -> (r: Result<(), Error>)
    ensures
        r is Ok <==> forall|i: int| 0 <= i < files@.len() ==> #[trigger] files@[i].succeed != Some(false),
        r is Err ==> exists|i: int|
            0 <= i < files@.len() && #[trigger] files@[i].succeed == Some(false) && (forall|j: int|
                0 <= j < i ==> files@[j].succeed != Some(false)) && r == Err::<(), Error>(
                (Error::RemoteIo { code: files@[i].error_code }),
            ),
{
    let mut i: usize = 0;
    while i < files.len()
        invariant
            i <= files@.len(),
            forall|j: int| 0 <= j < i ==> #[trigger] files@[j].succeed != Some(false),
        decreases files@.len() - i,
    {
        if files[i].succeed == Some(false) {
            return Err(Error::RemoteIo { code: files[i].error_code });
        }
        i = i + 1;
    }
    Ok(())
}

/// Position of the last `/` in `s`, if any.
pub open spec fn last_slash(s: Seq<char>) -> Option<int>
    decreases s.len(),
{
    if s.len() == 0 {
        None
    } else if s.last() == '/' {
        Some(s.len() - 1)
    } else {
        last_slash(s.drop_last())
    }
}

/// Parent directory and name of a remote path, split at its last `/`: the
/// parent is `/` for a top-level name.
pub open spec fn split_remote(s: Seq<char>) -> Option<(Seq<char>, Seq<char>)> {
    match last_slash(s) {
        None => None,
        Some(i) => Some(
            (
                if i == 0 {
                    seq!['/']
                } else {
                    s.subrange(0, i)
                },
                s.subrange(i + 1, s.len() as int),
            ),
        ),
    }
}

/// Split a remote path into its parent directory and file name (see
/// `split_remote`). A path without `/` names no directory, one ending in
/// `/` names no file.
pub fn split_remote_path(path: &str) -> (r: Result<(String, String), Error>)
    ensures
        last_slash(path@) is None ==> r == Err::<(String, String), Error>(
            Error::Usage(UsageFault::RemotePathDirectoryRequired),
        ),
        split_remote(path@) matches Some((parent, name)) ==> (name.len() == 0 ==> r == Err::<
            (String, String),
            Error,
        >(Error::Usage(UsageFault::RemotePathNameRequired))) && (name.len() > 0 ==> (r matches Ok((p, n))
            && p@ == parent && n@ == name)),
{
    let cs = chars_of(path);
    let mut i: usize = cs.len();
    assert(cs@.subrange(0, cs@.len() as int) =~= cs@);
    while i > 0 && cs[i - 1] != '/'
        invariant
            i <= cs@.len(),
            cs@ == path@,
            last_slash(path@) == last_slash(cs@.subrange(0, i as int)),
        decreases i,
    {
        assert(cs@.subrange(0, i as int).drop_last() =~= cs@.subrange(0, i - 1));
        i = i - 1;
    }
    if i == 0 {
        assert(cs@.subrange(0, 0) =~= Seq::<char>::empty());
        return Err(Error::Usage(UsageFault::RemotePathDirectoryRequired));
    }
    let idx = i - 1;
    assert(last_slash(path@) == Some(idx as int)) by {
        assert(cs@.subrange(0, i as int).last() == '/');
    }
    let mut name: Vec<char> = Vec::new();
    let mut k: usize = idx + 1;
    while k < cs.len()
        invariant
            idx + 1 <= k <= cs@.len(),
            name@ == cs@.subrange(idx + 1, k as int),
        decreases cs@.len() - k,
    {
        name.push(cs[k]);
        k = k + 1;
        assert(name@ =~= cs@.subrange(idx + 1, k as int));
    }
    if name.len() == 0 {
        return Err(Error::Usage(UsageFault::RemotePathNameRequired));
    }
    let mut parent: Vec<char> = Vec::new();
    if idx == 0 {
        parent.push('/');
        assert(parent@ =~= seq!['/']);
    } else {
        let mut k: usize = 0;
        while k < idx
            invariant
                k <= idx < cs@.len(),
                parent@ == cs@.subrange(0, k as int),
            decreases idx - k,
        {
            parent.push(cs[k]);
            k = k + 1;
            assert(parent@ =~= cs@.subrange(0, k as int));
        }
    }
    Ok((string_from_chars(parent.as_slice()), string_from_chars(name.as_slice())))
}

/// The depth sent with a listing request: at least one level.
pub fn listing_depth(depth: u32) -> (r: u32)
    ensures
        r == if depth >= 1 {
            depth
        } else {
            1
        },
{
    if depth >= 1 {
        depth
    } else {
        1
    }
}

/// The outcome of a metadata lookup before asking the phone.
#[derive(Debug, Clone, PartialEq, Eq)]
pub enum StatPlan {
    /// The path is the phone's root: answered without a request.
    Root(RemoteFile),
    /// List this parent directory and pick the entry.
    ListParent(String),
}

/// Metadata lookup: the phone's root is a directory whose size is the disk
/// size (zero when unknown); any other path is found by listing its
/// parent (see `split_remote_path`).
pub fn stat_plan(path: &str, root_path: &str, disk_size: Option<u64>) -> (r: Result<StatPlan, Error>)
    ensures
        path@ == root_path@ ==> (r matches Ok(StatPlan::Root(f)) && f.path@ == path@ && f.size == match disk_size {
            Some(s) => s,
            None => 0,
        } && f.is_directory && f.created_at is None && f.modified_at is None && f.checksum is None
            && f.is_trash is None && f.id is None && f.ext_data is None),
        path@ != root_path@ && last_slash(path@) is None ==> r == Err::<StatPlan, Error>(
            Error::Usage(UsageFault::RemotePathDirectoryRequired),
        ),
        path@ != root_path@ ==> (split_remote(path@) matches Some((parent, name)) ==> (name.len() == 0 ==> r
            == Err::<StatPlan, Error>(Error::Usage(UsageFault::RemotePathNameRequired))) && (name.len() > 0 ==> (
        r matches Ok(StatPlan::ListParent(p)) && p@ == parent))),
{
    if crate::text::str_eq(path, root_path) {
        return Ok(
            StatPlan::Root(
                RemoteFile {
                    path: owned(path),
                    size: match disk_size {
                        Some(s) => s,
                        None => 0,
                    },
                    created_at: None,
                    modified_at: None,
                    is_directory: true,
                    checksum: None,
                    is_trash: None,
                    id: None,
                    ext_data: None,
                },
            ),
        );
    }
    match split_remote_path(path) {
        Ok((parent, _)) => Ok(StatPlan::ListParent(parent)),
        Err(e) => Err(e),
    }
}

/// The listed entry for `path`: the first one with that path.
pub fn find_listed(files: &[RemoteFile], path: &str) -> (r: Option<usize>)
    ensures
        r matches Some(i) ==> i < files@.len() && files@[i as int].path@ == path@ && forall|j: int|
            0 <= j < i ==> files@[j].path@ != path@,
        r is None ==> forall|j: int| 0 <= j < files@.len() ==> files@[j].path@ != path@,
{
    let mut i: usize = 0;
    while i < files.len()
        invariant
            i <= files@.len(),
            forall|j: int| 0 <= j < i ==> files@[j].path@ != path@,
        decreases files@.len() - i,
    {
        if crate::text::str_eq(files[i].path.as_str(), path) {
            return Some(i);
        }
        i = i + 1;
    }
    None
}

/// A download may not replace an existing local file unless asked to.
pub fn check_download_target(local_exists: bool, overwrite: bool) -> (r: Result<(), Error>)
    ensures
        r is Err <==> local_exists && !overwrite,
        r is Err ==> r == Err::<(), Error>(Error::LocalIo(LocalFault::TargetExists)),
{
    if local_exists && !overwrite {
        return Err(Error::LocalIo(LocalFault::TargetExists));
    }
    Ok(())
}

/// The byte count a download header announces: the phone must say it is
/// ready (else its error code is reported) and give a length.
pub fn download_length(ready: Option<bool>, error_code: Option<i32>, length: Option<u64>) -> (r: Result<u64, Error>)
    ensures
        ready != Some(true) ==> r == Err::<u64, Error>((Error::RemoteIo { code: error_code })),
        ready == Some(true) && length is None ==> r == Err::<u64, Error>(Error::Protocol(ProtocolFault::MissingLength)),
        ready == Some(true) ==> (length matches Some(n) ==> r == Ok::<u64, Error>(n)),
{
    if ready != Some(true) {
        return Err(remote_error(error_code));
    }
    match length {
        Some(n) => Ok(n),
        None => Err(Error::Protocol(ProtocolFault::MissingLength)),
    }
}

/// ASCII case folding of one character.
pub open spec fn ascii_lower(c: char) -> char {
    if 'A' <= c && c <= 'Z' {
        ((c as u32) + 32) as char
    } else {
        c
    }
}

/// Equality ignoring ASCII case.
pub open spec fn eq_ignore_ascii_case(a: Seq<char>, b: Seq<char>) -> bool {
    a.len() == b.len() && forall|i: int| 0 <= i < a.len() ==> ascii_lower(a[i]) == ascii_lower(b[i])
}

fn lower(c: char) -> (r: char)
    ensures
        r == ascii_lower(c),
{
    if 'A' <= c && c <= 'Z' {
        let u = (c as u32) + 32;
        assert(u == 'a' as u32 + ((c as u32) - ('A' as u32)));
        char_from_ascii(u)
    } else {
        c
    }
}

fn char_from_ascii(u: u32) -> (r: char)
    requires
        'a' as u32 <= u <= 'z' as u32,
    ensures
        r == u as char,
{
    let b: u8 = u as u8;
    b as char
}

/// A downloaded file must match the MD5 the phone announced, compared
/// ignoring case; an absent or empty announcement checks nothing.
pub fn check_download_checksum(expected: &Option<String>, actual: &str) -> (r: Result<(), Error>)
    ensures
        r is Ok <==> match ostr(*expected) {
            Some(e) => e.len() == 0 || eq_ignore_ascii_case(e, actual@),
            None => true,
        },
        r is Err ==> r == Err::<(), Error>(Error::Protocol(ProtocolFault::ChecksumMismatch)),
{
    match expected {
        None => Ok(()),
        Some(e) => {
            let x = chars_of(e.as_str());
            let y = chars_of(actual);
            if x.len() == 0 {
                return Ok(());
            }
            if x.len() != y.len() {
                return Err(Error::Protocol(ProtocolFault::ChecksumMismatch));
            }
            let mut i: usize = 0;
            while i < x.len()
                invariant
                    i <= x@.len(),
                    x@.len() == y@.len(),
                    x@ == e@,
                    y@ == actual@,
                    x@.len() > 0,
                    ostr(*expected) == Some(e@),
                    forall|j: int| 0 <= j < i ==> ascii_lower(x@[j]) == ascii_lower(y@[j]),
                decreases x@.len() - i,
            {
                if lower(x[i]) != lower(y[i]) {
                    assert(ascii_lower(e@[i as int]) != ascii_lower(actual@[i as int]));
                    return Err(Error::Protocol(ProtocolFault::ChecksumMismatch));
                }
                i = i + 1;
            }
            Ok(())
        },
    }
}

/// A file read into memory may not exceed the limit.
pub fn check_in_memory_size(total: u64, limit: u64) -> (r: Result<(), Error>)
    ensures
        r is Err <==> total > limit,
        r is Err ==> r == Err::<(), Error>(Error::Protocol(ProtocolFault::FileTooLarge)),
{
    if total > limit {
        return Err(Error::Protocol(ProtocolFault::FileTooLarge));
    }
    Ok(())
}

/// A media answer may not exceed `MEDIA_RESPONSE_LIMIT` bytes.
pub fn check_media_response_size(len: usize) -> (r: Result<(), Error>)
    ensures
        r is Err <==> len > MEDIA_RESPONSE_LIMIT,
        r is Err ==> r == Err::<(), Error>(Error::Protocol(ProtocolFault::MediaResponseTooLarge)),
{
    if len > MEDIA_RESPONSE_LIMIT {
        return Err(Error::Protocol(ProtocolFault::MediaResponseTooLarge));
    }
    Ok(())
}

/// SSP file-I/O error code for "the target already exists".
pub const FILE_IO_TARGET_ALREADY_EXIST: i32 = 4;

/// An upload source must be a regular file, and may not replace an
/// existing remote file unless asked to: that is refused as the phone
/// would refuse it, with the "target already exists" file-I/O code.
pub fn check_upload(is_file: bool, remote_exists: bool, overwrite: bool) -> (r: Result<(), Error>)
    ensures
        !is_file ==> r == Err::<(), Error>(Error::LocalIo(LocalFault::NotRegularFile)),
        is_file && remote_exists && !overwrite ==> r == Err::<(), Error>(
            Error::RemoteIo { code: Some(FILE_IO_TARGET_ALREADY_EXIST) },
        ),
        is_file && (!remote_exists || overwrite) ==> r is Ok,
{
    if !is_file {
        return Err(Error::LocalIo(LocalFault::NotRegularFile));
    }
    if remote_exists && !overwrite {
        return Err(Error::RemoteIo { code: Some(FILE_IO_TARGET_ALREADY_EXIST) });
    }
    Ok(())
}

/// The outcome of an upload's final answer: success must be explicit, and
/// a cancellation reported by the phone is a failure.
pub fn upload_outcome(succeed: Option<bool>, canceled: Option<bool>, code: Option<i32>) -> (r: Result<(), Error>)
    ensures
        succeed != Some(true) || canceled == Some(true) <==> r == Err::<(), Error>((Error::RemoteIo { code })),
        succeed == Some(true) && canceled != Some(true) <==> r is Ok,
{
    ensure_remote_success(succeed, code)?;
    if canceled == Some(true) {
        return Err(Error::RemoteIo { code });
    }
    Ok(())
}

/// A metadata update counts only when the phone accepts it explicitly.
pub fn update_outcome(is_success: Option<bool>) -> (r: Result<bool, Error>)
    ensures
        is_success == Some(true) ==> r == Ok::<bool, Error>(true),
        is_success != Some(true) ==> r == Err::<bool, Error>(Error::Protocol(ProtocolFault::UpdateRejected)),
{
    if is_success != Some(true) {
        return Err(Error::Protocol(ProtocolFault::UpdateRejected));
    }
    Ok(true)
}

/// Whether the phone accepted a sync-monitor switch: an omitted answer is
/// acceptance.
pub fn sync_monitor_accepted(is_success: Option<bool>) -> (r: bool)
    ensures
        r == (is_success != Some(false)),
{
    match is_success {
        Some(b) => b,
        None => true,
    }
}

/// `.handshaker-part-`.
pub open spec fn part_marker() -> Seq<char> {
    seq!['.', 'h', 'a', 'n', 'd', 's', 'h', 'a', 'k', 'e', 'r', '-', 'p', 'a', 'r', 't', '-']
}

/// The temporary file a download is written to before it replaces `local`:
/// `.<name>.handshaker-part-<token>` in the same directory.
pub open spec fn temporary_path_of(local: Seq<char>, token: Seq<char>) -> Option<Seq<char>> {
    match file_name_of(local) {
        Some(name) => Some(join_path(parent_dir_of(local), seq!['.'] + name + part_marker() + token)),
        None => None,
    }
}

/// The temporary download path for `local` with a given unique token (see
/// `temporary_path_of`); a path without a file name is refused.
pub fn temporary_download_path_with(local: &str, token: &str) -> (r: Result<String, Error>)
    ensures
        temporary_path_of(local@, token@) matches Some(p) ==> (r matches Ok(s) && s@ == p),
        temporary_path_of(local@, token@) is None ==> r == Err::<String, Error>(
            Error::LocalIo(LocalFault::PathNameRequired),
        ),
{
    match crate::paths::parent_and_name(local) {
        None => Err(Error::LocalIo(LocalFault::PathNameRequired)),
        Some((dir, name)) => {
            let mut out: Vec<char> = Vec::new();
            crate::paths::push_join_base(&mut out, &dir);
            out.push('.');
            append_chars(&mut out, &name);
            append_str(&mut out, ".handshaker-part-");
            append_str(&mut out, token);
            proof {
                reveal_strlit(".handshaker-part-");
                assert(out@ =~= join_path(dir@, seq!['.'] + name@ + part_marker() + token@));
            }
            Ok(string_from_chars(out.as_slice()))
        },
    }
}

/// Batch concurrency must lie in `1..=MAX_BATCH_CONCURRENCY`.
pub fn check_batch_concurrency(concurrency: usize) -> (r: Result<(), Error>)
    ensures
        r is Ok <==> 1 <= concurrency <= MAX_BATCH_CONCURRENCY,
        r is Err ==> r == Err::<(), Error>(Error::Usage(UsageFault::BatchConcurrencyRange)),
{
    if concurrency == 0 || concurrency > MAX_BATCH_CONCURRENCY {
        return Err(Error::Usage(UsageFault::BatchConcurrencyRange));
    }
    Ok(())
}

/// A remote child path: the directory without trailing `/`, a `/`, and the
/// name.
pub fn remote_child(remote_dir: &str, name: &str) -> (r: String)
    ensures
        r@ == trim_slashes(remote_dir@) + seq!['/'] + name@,
{
    let mut out = crate::paths::trim_trailing_slashes(remote_dir);
    out.push('/');
    append_str(&mut out, name);
    string_from_chars(out.as_slice())
}

/// Texts of a sequence of strings.
pub open spec fn texts(s: Seq<String>) -> Seq<Seq<char>> {
    s.map_values(|x: String| x@)
}

/// The remote directories to create before an upload: each named
/// directory once, in ascending order, so that a directory comes before
/// every directory below it (see `law_parent_directories_come_first`).
pub fn upload_directory_order(dirs: &[String]) -> (r: Vec<String>)
    ensures
        crate::snapshot::sorted_keys(texts(r@)),
        forall|d: Seq<char>| #[trigger] texts(r@).contains(d) <==> texts(dirs@).contains(d),
{
    let mut set: crate::keyed::KeyedList<()> = crate::keyed::KeyedList::new();
    let mut i: usize = 0;
    while i < dirs.len()
        invariant
            i <= dirs@.len(),
            set.wf(),
            forall|k: Seq<char>| #[trigger] set.get(k) is Some <==> texts(dirs@.subrange(0, i as int)).contains(k),
        decreases dirs@.len() - i,
    {
        let ghost before = texts(dirs@.subrange(0, i as int));
        let ghost after = texts(dirs@.subrange(0, i as int + 1));
        assert(after =~= before.push(dirs@[i as int]@));
        assert forall|k: Seq<char>| after.contains(k) <==> (k == dirs@[i as int]@ || before.contains(k)) by {
            if after.contains(k) {
                let j = choose|j: int| 0 <= j < after.len() && after[j] == k;
                if j < before.len() {
                    assert(before[j] == k);
                }
            }
            if before.contains(k) {
                let j = choose|j: int| 0 <= j < before.len() && before[j] == k;
                assert(after[j] == k);
            }
            if k == dirs@[i as int]@ {
                assert(after[i as int] == k);
            }
        }
        set.insert(copy_string(&dirs[i]), ());
        i = i + 1;
    }
    assert(dirs@.subrange(0, dirs@.len() as int) =~= dirs@);
    let ghost fin = set;
    let pairs = set.into_pairs();
    let mut out: Vec<String> = Vec::new();
    let mut j: usize = 0;
    while j < pairs.len()
        invariant
            j <= pairs@.len(),
            pairs@ == fin.entries(),
            texts(out@) == fin.keys().subrange(0, j as int),
        decreases pairs@.len() - j,
    {
        let ghost before = out@;
        out.push(copy_string(&pairs[j].0));
        assert(texts(out@) =~= texts(before).push(pairs@[j as int].0@));
        assert(fin.keys()[j as int] == pairs@[j as int].0@);
        j = j + 1;
        assert(texts(out@) =~= fin.keys().subrange(0, j as int));
    }
    assert(fin.keys().subrange(0, pairs@.len() as int) =~= fin.keys());
    assert forall|d: Seq<char>| #[trigger] texts(out@).contains(d) <==> texts(dirs@).contains(d) by {
        assert(fin.get(d) is Some <==> fin.keys().contains(d));
    }
    out
}

/// A proper prefix comes first in string order.
proof fn lemma_prefix_is_less(p: Seq<char>, s: Seq<char>)
    requires
        p.len() < s.len(),
        s.subrange(0, p.len() as int) == p,
    ensures
        crate::snapshot::str_lt(p, s),
    decreases p.len(),
{
    if p.len() > 0 {
        assert(p[0] == s.subrange(0, p.len() as int)[0]);
        assert(s.drop_first().subrange(0, p.drop_first().len() as int) =~= p.drop_first()) by {
            assert forall|k: int| 0 <= k < p.drop_first().len() implies s.drop_first()[k] == p.drop_first()[k] by {
                assert(s.subrange(0, p.len() as int)[k + 1] == p[k + 1]);
            }
        }
        lemma_prefix_is_less(p.drop_first(), s.drop_first());
    }
}

/// In an ascending list of directories, a directory comes before every
/// path that extends it, so parents are created before their children.
pub proof fn law_parent_directories_come_first(order: Seq<Seq<char>>, i: int, j: int)
    requires
        crate::snapshot::sorted_keys(order),
        0 <= i < order.len(),
        0 <= j < order.len(),
        order[i].len() < order[j].len(),
        order[j].subrange(0, order[i].len() as int) == order[i],
    ensures
        i < j,
{
    lemma_prefix_is_less(order[i], order[j]);
    if j < i {
        crate::snapshot::lemma_str_lt_transitive(order[j], order[i], order[j]);
        crate::snapshot::lemma_str_lt_irreflexive(order[j]);
    }
}

/// The part of a listed path below `base/`, when it starts with it.
pub open spec fn below(path: Seq<char>, base: Seq<char>) -> Option<Seq<char>> {
    let prefix = base + seq!['/'];
    if prefix.len() <= path.len() && path.subrange(0, prefix.len() as int) == prefix {
        Some(path.subrange(prefix.len() as int, path.len() as int))
    } else {
        None
    }
}

/// A relative path that could leave the directory it is joined to: it is
/// rooted, or has a `..` part.
pub open spec fn escapes(rel: Seq<char>) -> bool {
    (rel.len() > 0 && rel[0] == '/') || has_parent_segment(path_segments(rel))
}

/// Whether a listed entry may be mirrored under the local directory.
pub open spec fn tree_entry_ok(remote_dir: Seq<char>, path: Seq<char>) -> bool {
    match below(path, trim_slashes(remote_dir)) {
        Some(rel) => !escapes(rel),
        None => false,
    }
}

/// Local path of a mirrored entry.
pub open spec fn tree_local(remote_dir: Seq<char>, local_dir: Seq<char>, path: Seq<char>) -> Seq<char> {
    join_path(local_dir, below(path, trim_slashes(remote_dir))->0)
}

/// What mirroring a listed tree does: the local directories to create and
/// the files to download, in listing order.
pub open spec fn tree_plan_of(remote_dir: Seq<char>, local_dir: Seq<char>, files: Seq<RemoteFile>) -> (Seq<Seq<char>>, Seq<(Seq<char>, Seq<char>)>)
    decreases files.len(),
{
    if files.len() == 0 {
        (Seq::empty(), Seq::empty())
    } else {
        let (d, it) = tree_plan_of(remote_dir, local_dir, files.drop_last());
        let f = files.last();
        let local = tree_local(remote_dir, local_dir, f.path@);
        if f.is_directory {
            (d.push(local), it)
        } else {
            (d, it.push((f.path@, local)))
        }
    }
}

/// A local tree to create and the files to download into it.
#[derive(Debug)]
pub struct TreePlan {
    /// Local directories to create, in listing order.
    pub directories: Vec<String>,
    /// Files to download (phone path to local path), in listing order.
    pub items: Vec<BatchTransferItem>,
}

/// Plan the mirroring of a listed phone tree under `local_dir`: every
/// listed path must lie below `remote_dir/` and its part below it may be
/// neither rooted nor contain `..`, else the listing is refused before
/// anything is written. Directories become local directories, files
/// become downloads, each at `local_dir` joined with its relative path.
pub fn plan_download_tree(remote_dir: &str, local_dir: &str, files: &[RemoteFile]) -> (r: Result<TreePlan, Error>)
    ensures
        r is Err <==> exists|i: int| 0 <= i < files@.len() && !tree_entry_ok(remote_dir@, #[trigger] files@[i].path@),
        r is Err ==> r == Err::<TreePlan, Error>(Error::Protocol(ProtocolFault::PathOutsideRoot)),
        r matches Ok(plan) ==> ({
            let (d, it) = tree_plan_of(remote_dir@, local_dir@, files@);
            &&& plan.directories@.map_values(|s: String| s@) == d
            &&& plan.items@.map_values(|x: BatchTransferItem| (x.source@, x.target@)) == it
        }),
{
    let base = crate::paths::trim_trailing_slashes(remote_dir);
    let mut prefix = crate::text::copy_chars(&base);
    prefix.push('/');
    let local_base = chars_of(local_dir);
    let mut dirs: Vec<String> = Vec::new();
    let mut items: Vec<BatchTransferItem> = Vec::new();
    let mut i: usize = 0;
    while i < files.len()
        invariant
            i <= files@.len(),
            base@ == trim_slashes(remote_dir@),
            prefix@ == base@ + seq!['/'],
            local_base@ == local_dir@,
            forall|j: int| 0 <= j < i ==> tree_entry_ok(remote_dir@, #[trigger] files@[j].path@),
            ({
                let (d, it) = tree_plan_of(remote_dir@, local_dir@, files@.subrange(0, i as int));
                &&& dirs@.map_values(|s: String| s@) == d
                &&& items@.map_values(|x: BatchTransferItem| (x.source@, x.target@)) == it
            }),
        decreases files@.len() - i,
    {
        let f = &files[i];
        let pc = chars_of(f.path.as_str());
        let ghost sub = files@.subrange(0, i as int + 1);
        assert(sub.drop_last() =~= files@.subrange(0, i as int));
        assert(sub.last() == files@[i as int]);
        if pc.len() < prefix.len() {
            return Err(Error::Protocol(ProtocolFault::PathOutsideRoot));
        }
        let mut k: usize = 0;
        while k < prefix.len()
            invariant
                i < files@.len(),
                k <= prefix@.len() <= pc@.len(),
                pc@ == files@[i as int].path@,
                prefix@ == base@ + seq!['/'],
                base@ == trim_slashes(remote_dir@),
                forall|q: int| 0 <= q < k ==> pc@[q] == prefix@[q],
            decreases prefix@.len() - k,
        {
            if pc[k] != prefix[k] {
                proof {
                    assert(pc@.subrange(0, prefix@.len() as int)[k as int] != prefix@[k as int]);
                    assert(below(files@[i as int].path@, base@) is None);
                    assert(!tree_entry_ok(remote_dir@, files@[i as int].path@));
                }
                return Err(Error::Protocol(ProtocolFault::PathOutsideRoot));
            }
            k = k + 1;
        }
        assert(pc@.subrange(0, prefix@.len() as int) =~= prefix@);
        let mut rel: Vec<char> = Vec::new();
        let mut q: usize = prefix.len();
        while q < pc.len()
            invariant
                prefix@.len() <= q <= pc@.len(),
                rel@ == pc@.subrange(prefix@.len() as int, q as int),
            decreases pc@.len() - q,
        {
            rel.push(pc[q]);
            q = q + 1;
            assert(rel@ =~= pc@.subrange(prefix@.len() as int, q as int));
        }
        assert(below(f.path@, base@) == Some(rel@));
        let rooted = rel.len() > 0 && rel[0] == '/';
        let rel_segs = crate::paths::segments(&rel);
        let parent = crate::paths::any_parent_segment(&rel_segs, 0);
        assert(rel_segs@.map_values(|v: Vec<char>| v@).subrange(0, rel_segs@.len() as int) =~= rel_segs@.map_values(
            |v: Vec<char>| v@,
        ));
        if rooted || parent {
            return Err(Error::Protocol(ProtocolFault::PathOutsideRoot));
        }
        let mut local: Vec<char> = Vec::new();
        crate::paths::push_join_base(&mut local, &local_base);
        append_chars(&mut local, &rel);
        assert(local@ =~= tree_local(remote_dir@, local_dir@, f.path@));
        let local_s = string_from_chars(local.as_slice());
        if f.is_directory {
            let ghost before = dirs@;
            dirs.push(local_s);
            assert(dirs@.map_values(|s: String| s@) =~= before.map_values(|s: String| s@).push(local@));
        } else {
            let ghost before = items@;
            items.push(BatchTransferItem { source: copy_string(&f.path), target: local_s });
            assert(items@.map_values(|x: BatchTransferItem| (x.source@, x.target@)) =~= before.map_values(
                |x: BatchTransferItem| (x.source@, x.target@),
            ).push((f.path@, local@)));
        }
        i = i + 1;
    }
    assert(files@.subrange(0, files@.len() as int) =~= files@);
    Ok(TreePlan { directories: dirs, items })
}

/// The failure recorded for an item skipped because the batch was
/// cancelled before it started.
pub fn cancelled_failure(item: &BatchTransferItem) -> (r: BatchTransferFailure)
    ensures
        r.source@ == item.source@,
        r.target@ == item.target@,
        r.message@ == "cancelled"@,
        r.code == Some(ErrorCode::Interrupted),
{
    BatchTransferFailure {
        source: copy_string(&item.source),
        target: copy_string(&item.target),
        message: owned("cancelled"),
        code: Some(ErrorCode::Interrupted),
    }
}

/// The failure recorded for an item whose transfer failed with `error`,
/// described by `message`: the item's paths and the error's class.
pub fn item_failure(item: &BatchTransferItem, error: &Error, message: String) -> (r: BatchTransferFailure)
    ensures
        r.source@ == item.source@,
        r.target@ == item.target@,
        r.message == message,
        r.code == Some(code_of(*error)),
{
    BatchTransferFailure {
        source: copy_string(&item.source),
        target: copy_string(&item.target),
        message,
        code: Some(error.code()),
    }
}

/// The outcome of a finished batch: when cancellation was requested and an
/// item was skipped for it, the batch is interrupted; otherwise the
/// aggregated result stands.
pub fn finish_batch(result: BatchTransferResult, cancelled: bool) -> (r: Result<BatchTransferResult, Error>)
    ensures
        (cancelled && exists|i: int| 0 <= i < result.failures@.len() && (#[trigger] result.failures@[i]).code == Some(ErrorCode::Interrupted))
            ==> r == Err::<BatchTransferResult, Error>(Error::Interrupted),
        !(cancelled && exists|i: int| 0 <= i < result.failures@.len() && (#[trigger] result.failures@[i]).code == Some(ErrorCode::Interrupted))
            ==> r == Ok::<BatchTransferResult, Error>(result),
{
    if cancelled {
        let mut i: usize = 0;
        while i < result.failures.len()
            invariant
                cancelled,
                i <= result.failures@.len(),
                forall|j: int| 0 <= j < i ==> (#[trigger] result.failures@[j]).code != Some(ErrorCode::Interrupted),
            decreases result.failures@.len() - i,
        {
            if result.failures[i].code == Some(ErrorCode::Interrupted) {
                return Err(Error::Interrupted);
            }
            i = i + 1;
        }
    }
    Ok(result)
}

/// Whether `r` is the public form of phone record `f` (see `remote_file`).
pub open spec fn remote_from(r: RemoteFile, f: SspFile) -> bool {
    &&& r.path@ == match ostr(f.path) {
        Some(p) => p,
        None => Seq::empty(),
    }
    &&& r.size == match f.file_size {
        Some(s) => s,
        None => 0,
    }
    &&& r.created_at == f.created_timestamp && r.modified_at == f.modified_timestamp
    &&& r.is_directory == (f.is_directory == Some(true))
    &&& ostr(r.checksum) == ostr(f.checksum) && r.is_trash == f.is_trash && r.id == f.id
    &&& ostr(r.ext_data) == ostr(f.ext_data)
}

/// The public form of each phone record, in order.
pub fn remote_files(files: Vec<SspFile>) -> (r: Vec<RemoteFile>)
    ensures
        r@.len() == files@.len(),
        forall|i: int| 0 <= i < files@.len() ==> remote_from(#[trigger] r@[i], files@[i]),
{
    let ghost fs = files@;
    let n = files.len();
    let mut rest = files;
    let mut out: Vec<RemoteFile> = Vec::new();
    let mut i: usize = 0;
    while i < n
        invariant
            i <= n,
            n == fs.len(),
            rest@ == fs.subrange(i as int, n as int),
            out@.len() == i,
            forall|k: int| 0 <= k < i ==> remote_from(#[trigger] out@[k], fs[k]),
        decreases n - i,
    {
        let f = rest.remove(0);
        assert(f == fs[i as int]);
        out.push(remote_file(f));
        assert(rest@ =~= fs.subrange(i as int + 1, n as int));
        i = i + 1;
    }
    out
}

/// The photo-sync answer in public form: the first-sync flag and success
/// flag as sent, the files mapped in order.
pub fn photo_sync_result(is_first: Option<bool>, files: Vec<SspFile>, is_success: Option<bool>) -> (r: PhotoSyncResult)
    ensures
        r.is_first == is_first,
        r.is_success == is_success,
        r.files@.len() == files@.len(),
        forall|i: int| 0 <= i < files@.len() ==> remote_from(#[trigger] r.files@[i], files@[i]),
{
    PhotoSyncResult { is_first, files: remote_files(files), is_success }
}

} // verus!
