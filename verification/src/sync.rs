//! Photo sync: planning the difference between the phone's current photo
//! state and the local ledger, conflict detection against local hashes, and
//! the ledger bookkeeping around each download and delete.
//!
//! Direction is one-way, phone to host. The ledger records what was
//! downloaded and the local SHA-256 at commit time, so a re-run is
//! idempotent and a user-modified local file is reported as a conflict
//! instead of being overwritten or deleted.
use vstd::prelude::*;

use crate::domain::{RecordView, RemoteFile, SyncConfig, SyncDiff, SyncFileRecord, SyncRunResult};
use crate::error::{Error, ProtocolFault};
use crate::events::{FileChange, FileChangeStatus};
use crate::paths::{
    any_parent_segment, has_parent_segment, is_abs, join_path, join_segments, path_segments,
    push_join_base, push_joined, segments, segments_start_with,
};
use crate::snapshot::SyncSnapshot;
use crate::text::{
    chars_of, copy_opt_string, copy_string, opt_string_eq, ostr, str_eq, string_from_chars,
};

verus! {

/// Contents of a list of strings.
pub open spec fn strs(v: Seq<String>) -> Seq<Seq<char>> {
    v.map_values(|s: String| s@)
}

/// The phone reports a different checksum than the one recorded.
pub open spec fn checksum_changed(r: RecordView, f: RemoteFile) -> bool {
    r.checksum is Some && ostr(f.checksum) != r.checksum
}

/// The phone's extension data or modification time differ from the record.
pub open spec fn metadata_changed(r: RecordView, f: RemoteFile) -> bool {
    r.ext_data != ostr(f.ext_data) || r.modified_at != f.modified_at
}

/// A phone file that must be downloaded: new, or its content changed.
pub open spec fn needs_download(f: RemoteFile, snap: SyncSnapshot) -> bool {
    !f.is_directory && match snap.lookup(f.path@) {
        None => true,
        Some(r) => checksum_changed(r, f),
    }
}

/// A phone file whose metadata alone changed.
pub open spec fn needs_info_update(f: RemoteFile, snap: SyncSnapshot) -> bool {
    !f.is_directory && match snap.lookup(f.path@) {
        None => false,
        Some(r) => !checksum_changed(r, f) && metadata_changed(r, f),
    }
}

/// Paths of phone files to download, in phone order.
pub open spec fn added_paths(phone: Seq<RemoteFile>, snap: SyncSnapshot) -> Seq<Seq<char>>
    decreases phone.len(),
{
    if phone.len() == 0 {
        Seq::empty()
    } else {
        let rest = added_paths(phone.drop_last(), snap);
        if needs_download(phone.last(), snap) {
            rest.push(phone.last().path@)
        } else {
            rest
        }
    }
}

/// Paths of phone files whose metadata alone changed, in phone order.
pub open spec fn info_paths(phone: Seq<RemoteFile>, snap: SyncSnapshot) -> Seq<Seq<char>>
    decreases phone.len(),
{
    if phone.len() == 0 {
        Seq::empty()
    } else {
        let rest = info_paths(phone.drop_last(), snap);
        if needs_info_update(phone.last(), snap) {
            rest.push(phone.last().path@)
        } else {
            rest
        }
    }
}

/// Whether any phone entry (file or directory) has path `k`.
pub open spec fn on_phone(phone: Seq<RemoteFile>, k: Seq<char>) -> bool {
    exists|i: int| 0 <= i < phone.len() && phone[i].path@ == k
}

/// Recorded paths no longer on the phone, in ledger order.
pub open spec fn deleted_paths(keys: Seq<Seq<char>>, phone: Seq<RemoteFile>) -> Seq<Seq<char>>
    decreases keys.len(),
{
    if keys.len() == 0 {
        Seq::empty()
    } else {
        let rest = deleted_paths(keys.drop_last(), phone);
        if on_phone(phone, keys.last()) {
            rest
        } else {
            rest.push(keys.last())
        }
    }
}

fn push_string(v: &mut Vec<String>, s: &String)
    ensures
        strs(final(v)@) == strs(old(v)@).push(s@),
{
    v.push(copy_string(s));
    assert(strs(final(v)@) =~= strs(old(v)@).push(s@));
}

/// Diff between the phone's current state and the ledger snapshot: a
/// recorded file whose phone checksum changed is re-downloaded, one whose
/// checksum is unchanged but whose extension data or modification time
/// changed is metadata-only, a recorded file absent on the phone is
/// deleted, and files new on the phone are added. Directories are ignored.
pub fn plan_diff(phone_files: &[RemoteFile], snapshot: &SyncSnapshot) -> (diff: SyncDiff)
    requires
        snapshot.wf(),
    ensures
        strs(diff.added@) == added_paths(phone_files@, *snapshot),
        strs(diff.info_modified@) == info_paths(phone_files@, *snapshot),
        strs(diff.deleted@) == deleted_paths(snapshot.keys(), phone_files@),
        diff.conflicts@.len() == 0,
{
    let mut added: Vec<String> = Vec::new();
    let mut info: Vec<String> = Vec::new();
    let mut i: usize = 0;
    while i < phone_files.len()
        invariant
            i <= phone_files@.len(),
            snapshot.wf(),
            strs(added@) == added_paths(phone_files@.subrange(0, i as int), *snapshot),
            strs(info@) == info_paths(phone_files@.subrange(0, i as int), *snapshot),
        decreases phone_files@.len() - i,
    {
        let file = &phone_files[i];
        let ghost pre = phone_files@.subrange(0, i as int);
        assert(phone_files@.subrange(0, i as int + 1).drop_last() =~= pre);
        assert(phone_files@.subrange(0, i as int + 1).last() == *file);
        if !file.is_directory {
            match snapshot.get(file.path.as_str()) {
                None => {
                    push_string(&mut added, &file.path);
                },
                Some(record) => {
                    let checksum_changed = record.checksum.is_some() && !opt_string_eq(
                        &file.checksum,
                        &record.checksum,
                    );
                    let metadata_changed = !opt_string_eq(&record.ext_data, &file.ext_data)
                        || record.modified_at != file.modified_at;
                    if checksum_changed {
                        push_string(&mut added, &file.path);
                    } else if metadata_changed {
                        push_string(&mut info, &file.path);
                    }
                },
            }
        }
        i = i + 1;
    }
    assert(phone_files@.subrange(0, phone_files@.len() as int) =~= phone_files@);
    let mut deleted: Vec<String> = Vec::new();
    let n = snapshot.len();
    let mut k: usize = 0;
    while k < n
        invariant
            k <= n,
            n == snapshot.entries().len(),
            strs(deleted@) == deleted_paths(snapshot.keys().subrange(0, k as int), phone_files@),
        decreases n - k,
    {
        let entry = snapshot.entry(k);
        let ghost key = snapshot.keys()[k as int];
        assert(key == entry.path@);
        assert(snapshot.keys().subrange(0, k as int + 1).drop_last() =~= snapshot.keys().subrange(
            0,
            k as int,
        ));
        let mut found = false;
        let mut j: usize = 0;
        while j < phone_files.len()
            invariant
                j <= phone_files@.len(),
                found == exists|x: int| 0 <= x < j && phone_files@[x].path@ == key,
                key == entry.path@,
            decreases phone_files@.len() - j,
        {
            if str_eq(phone_files[j].path.as_str(), entry.path.as_str()) {
                found = true;
            }
            j = j + 1;
        }
        if !found {
            push_string(&mut deleted, &entry.path);
        }
        k = k + 1;
    }
    assert(snapshot.keys().subrange(0, n as int) =~= snapshot.keys());
    SyncDiff { added, info_modified: info, deleted, conflicts: Vec::new() }
}

/// A local file whose hash must be compared with the ledger before the plan
/// may touch it.
#[derive(Debug, Clone, PartialEq, Eq)]
pub struct ConflictProbe {
    /// Phone path the plan would download or delete.
    pub remote_path: String,
    /// Local file recorded for it.
    pub local_path: String,
    /// SHA-256 recorded when the file was committed.
    pub expected_sha256: String,
}

/// Probe view: phone path, local path, expected hash.
pub open spec fn probe_view(p: ConflictProbe) -> (Seq<char>, Seq<char>, Seq<char>) {
    (p.remote_path@, p.local_path@, p.expected_sha256@)
}

/// Probes for the given planned paths: every path with a ledger record that
/// carries a local hash, in order.
pub open spec fn probes_for(paths: Seq<Seq<char>>, snap: SyncSnapshot) -> Seq<
    (Seq<char>, Seq<char>, Seq<char>),
>
    decreases paths.len(),
{
    if paths.len() == 0 {
        Seq::empty()
    } else {
        let rest = probes_for(paths.drop_last(), snap);
        match snap.lookup(paths.last()) {
            Some(r) => match r.local_sha256 {
                Some(h) => rest.push((paths.last(), r.local_path, h)),
                None => rest,
            },
            None => rest,
        }
    }
}

/// The probes of a diff: over its added then deleted paths.
pub open spec fn diff_probes(diff: SyncDiff, snap: SyncSnapshot) -> Seq<(Seq<char>, Seq<char>, Seq<char>)> {
    probes_for(strs(diff.added@) + strs(diff.deleted@), snap)
}

/// Append the probe of one planned path, if its record carries a local hash.
fn push_probe(probes: &mut Vec<ConflictProbe>, path: &String, snapshot: &SyncSnapshot, Ghost(done): Ghost<Seq<Seq<char>>>)
    requires
        snapshot.wf(),
        old(probes)@.map_values(|p: ConflictProbe| probe_view(p)) == probes_for(done, *snapshot),
    ensures
        final(probes)@.map_values(|p: ConflictProbe| probe_view(p)) == probes_for(done.push(path@), *snapshot),
{
    let ghost before = probes@;
    assert(done.push(path@).drop_last() =~= done);
    match snapshot.get(path.as_str()) {
        Some(record) => match &record.local_sha256 {
            Some(h) => {
                probes.push(
                    ConflictProbe {
                        remote_path: copy_string(path),
                        local_path: copy_string(&record.local_path),
                        expected_sha256: copy_string(h),
                    },
                );
                assert(probes@.map_values(|p: ConflictProbe| probe_view(p)) =~= before.map_values(
                    |p: ConflictProbe| probe_view(p),
                ).push((path@, record.local_path@, h@)));
            },
            None => {},
        },
        None => {},
    }
}

/// The local files whose hashes decide conflicts for `diff` (see `diff_probes`).
pub fn conflict_probes(diff: &SyncDiff, snapshot: &SyncSnapshot) -> (probes: Vec<ConflictProbe>)
    requires
        snapshot.wf(),
    ensures
        probes@.map_values(|p: ConflictProbe| probe_view(p)) == diff_probes(*diff, *snapshot),
{
    let mut probes: Vec<ConflictProbe> = Vec::new();
    let ghost all = strs(diff.added@) + strs(diff.deleted@);
    let ghost na = diff.added@.len();
    assert(probes@.map_values(|p: ConflictProbe| probe_view(p)) =~= Seq::empty());
    let mut i: usize = 0;
    while i < diff.added.len()
        invariant
            i <= diff.added@.len(),
            na == diff.added@.len(),
            all == strs(diff.added@) + strs(diff.deleted@),
            snapshot.wf(),
            probes@.map_values(|p: ConflictProbe| probe_view(p)) == probes_for(
                all.subrange(0, i as int),
                *snapshot,
            ),
        decreases diff.added@.len() - i,
    {
        assert(all.subrange(0, i as int).push(diff.added@[i as int]@) =~= all.subrange(0, i as int + 1));
        push_probe(&mut probes, &diff.added[i], snapshot, Ghost(all.subrange(0, i as int)));
        i = i + 1;
    }
    let mut k: usize = 0;
    while k < diff.deleted.len()
        invariant
            k <= diff.deleted@.len(),
            na == diff.added@.len(),
            all == strs(diff.added@) + strs(diff.deleted@),
            snapshot.wf(),
            probes@.map_values(|p: ConflictProbe| probe_view(p)) == probes_for(
                all.subrange(0, na + k),
                *snapshot,
            ),
        decreases diff.deleted@.len() - k,
    {
        assert(all.subrange(0, na + k).push(diff.deleted@[k as int]@) =~= all.subrange(0, na + k + 1));
        push_probe(&mut probes, &diff.deleted[k], snapshot, Ghost(all.subrange(0, na + k)));
        k = k + 1;
    }
    assert(all.subrange(0, (na + diff.deleted@.len()) as int) =~= all);
    probes
}

/// Conflicting phone paths: probes whose observed local hash is present and
/// differs from the recorded one, each path once, in probe order.
pub open spec fn conflicts_of(
    probes: Seq<(Seq<char>, Seq<char>, Seq<char>)>,
    observed: Seq<Option<Seq<char>>>,
) -> Seq<Seq<char>>
    decreases probes.len(),
{
    if probes.len() == 0 {
        Seq::empty()
    } else {
        let rest = conflicts_of(probes.drop_last(), observed);
        let p = probes.last();
        let o = observed[probes.len() - 1];
        if o is Some && o != Some(p.2) && !rest.contains(p.0) {
            rest.push(p.0)
        } else {
            rest
        }
    }
}

/// Report conflicts: planned downloads and deletes whose local file exists
/// and differs from the ledger's recorded SHA-256. `observed[i]` is the
/// current hash of the local file of probe `i` of `conflict_probes`, or
/// `None` when that file is missing or unreadable (nothing to protect).
pub fn check_conflicts(diff: &SyncDiff, snapshot: &SyncSnapshot, observed: &[Option<String>]) -> (conflicts: Vec<String>)
    requires
        snapshot.wf(),
        observed@.len() == diff_probes(*diff, *snapshot).len(),
    ensures
        strs(conflicts@) == conflicts_of(
            diff_probes(*diff, *snapshot),
            observed@.map_values(|o: Option<String>| ostr(o)),
        ),
{
    let probes = conflict_probes(diff, snapshot);
    let ghost pv = probes@.map_values(|p: ConflictProbe| probe_view(p));
    let ghost ov = observed@.map_values(|o: Option<String>| ostr(o));
    let mut out: Vec<String> = Vec::new();
    let mut i: usize = 0;
    while i < probes.len()
        invariant
            i <= probes@.len(),
            probes@.len() == observed@.len(),
            pv == probes@.map_values(|p: ConflictProbe| probe_view(p)),
            ov == observed@.map_values(|o: Option<String>| ostr(o)),
            strs(out@) == conflicts_of(pv.subrange(0, i as int), ov),
        decreases probes@.len() - i,
    {
        let p = &probes[i];
        let ghost sub = pv.subrange(0, i as int + 1);
        assert(sub.drop_last() =~= pv.subrange(0, i as int));
        assert(sub.last() == probe_view(*p));
        assert(ov[sub.len() - 1] == ostr(observed@[i as int]));
        match &observed[i] {
            Some(actual) => {
                if !actual.eq(&p.expected_sha256) {
                    let mut seen = false;
                    let mut j: usize = 0;
                    while j < out.len()
                        invariant
                            j <= out@.len(),
                            seen == exists|x: int| 0 <= x < j && strs(out@)[x] == p.remote_path@,
                        decreases out@.len() - j,
                    {
                        assert(strs(out@)[j as int] == out@[j as int]@);
                        if str_eq(out[j].as_str(), p.remote_path.as_str()) {
                            seen = true;
                        }
                        j = j + 1;
                    }
                    proof {
                        if strs(out@).contains(p.remote_path@) {
                            let x = strs(out@).index_of(p.remote_path@);
                            assert(strs(out@)[x] == p.remote_path@);
                        }
                    }
                    if !seen {
                        push_string(&mut out, &p.remote_path);
                    }
                }
            },
            None => {},
        }
        i = i + 1;
    }
    assert(pv.subrange(0, probes@.len() as int) =~= pv);
    out
}

/// Where a phone path under `phone_root` lands under `local_root`: the
/// segments below the root, joined onto the local root; `None` when the path
/// is not below the root or climbs out with `..`.
pub open spec fn destination_of(phone_root: Seq<char>, local_root: Seq<char>, phone_path: Seq<char>) -> Option<Seq<char>> {
    let r = path_segments(phone_root);
    let s = path_segments(phone_path);
    if is_abs(phone_root) == is_abs(phone_path) && r.len() <= s.len() && s.subrange(0, r.len() as int)
        == r && !has_parent_segment(s.subrange(r.len() as int, s.len() as int)) {
        Some(join_path(local_root, join_segments(s.subrange(r.len() as int, s.len() as int))))
    } else {
        None
    }
}

/// Map a phone path under the profile's phone root to a local destination
/// under its local root, refusing any path that escapes the subtree.
/// Paths are compared segment by segment; repeated separators and `.`
/// segments do not count.
pub fn local_destination(config: &SyncConfig, phone_path: &str) -> (result: Result<String, Error>)
    ensures
        destination_of(config.phone_root@, config.local_root@, phone_path@) matches Some(d) ==> (
        result matches Ok(s) && s@ == d),
        destination_of(config.phone_root@, config.local_root@, phone_path@) is None ==> result
            == Err::<String, Error>(Error::Protocol(ProtocolFault::PathOutsideRoot)),
{
    let root = chars_of(config.phone_root.as_str());
    let path = chars_of(phone_path);
    let rs = segments(&root);
    let ps = segments(&path);
    let root_abs = root.len() > 0 && root[0] == '/';
    let path_abs = path.len() > 0 && path[0] == '/';
    if root_abs != path_abs || !segments_start_with(&ps, &rs) || any_parent_segment(&ps, rs.len()) {
        return Err(Error::Protocol(ProtocolFault::PathOutsideRoot));
    }
    let base = chars_of(config.local_root.as_str());
    let mut out: Vec<char> = Vec::new();
    push_join_base(&mut out, &base);
    push_joined(&mut out, &ps, rs.len());
    proof {
        let rel = join_segments(
            ps@.map_values(|v: Vec<char>| v@).subrange(rs@.len() as int, ps@.len() as int),
        );
        if base@.len() == 0 {
            assert(out@ =~= rel);
        } else if base@.last() == '/' {
            assert(out@ =~= base@ + rel);
        } else {
            assert(out@ =~= base@ + seq!['/'] + rel);
        }
    }
    Ok(string_from_chars(out.as_slice()))
}

/// A planned download: the phone file and where it lands.
#[derive(Debug, Clone, PartialEq, Eq)]
pub struct DownloadTarget {
    /// Phone path.
    pub remote_path: String,
    /// Local destination.
    pub destination: String,
    /// Phone-side state at planning time (the new ledger row comes from it).
    pub file: RemoteFile,
}

/// Index of the first phone entry with path `k`.
pub open spec fn first_on_phone(phone: Seq<RemoteFile>, k: Seq<char>) -> int {
    choose|i: int| 0 <= i < phone.len() && phone[i].path@ == k && forall|j: int| 0 <= j < i ==> phone[j].path@ != k
}

fn find_phone_file(phone_files: &[RemoteFile], path: &str) -> (r: Option<usize>)
    ensures
        r matches Some(i) ==> i < phone_files@.len() && phone_files@[i as int].path@ == path@
            && forall|j: int| 0 <= j < i ==> phone_files@[j].path@ != path@,
        r is None ==> !on_phone(phone_files@, path@),
{
    let mut i: usize = 0;
    while i < phone_files.len()
        invariant
            i <= phone_files@.len(),
            forall|j: int| 0 <= j < i ==> phone_files@[j].path@ != path@,
        decreases phone_files@.len() - i,
    {
        if str_eq(phone_files[i].path.as_str(), path) {
            return Some(i);
        }
        i = i + 1;
    }
    None
}

fn contains_string(v: &[String], s: &str) -> (r: bool)
    ensures
        r == strs(v@).contains(s@),
{
    let mut i: usize = 0;
    while i < v.len()
        invariant
            i <= v@.len(),
            forall|j: int| 0 <= j < i ==> v@[j]@ != s@,
        decreases v@.len() - i,
    {
        if str_eq(v[i].as_str(), s) {
            assert(strs(v@)[i as int] == s@);
            return true;
        }
        i = i + 1;
    }
    proof {
        if strs(v@).contains(s@) {
            let x = strs(v@).index_of(s@);
            assert(v@[x]@ == s@);
        }
    }
    false
}

/// What executing the plan does for one added path: nothing when it is a
/// conflict or no longer on the phone, otherwise a download of the first
/// phone entry with that path to its local destination. A path outside the
/// phone root stops the run.
pub fn download_target(
    config: &SyncConfig,
    phone_files: &[RemoteFile],
    path: &str,
    conflicts: &[String],
) -> (result: Result<Option<DownloadTarget>, Error>)
    ensures
        strs(conflicts@).contains(path@) ==> result matches Ok(None),
        !strs(conflicts@).contains(path@) && !on_phone(phone_files@, path@) ==> result matches Ok(
            None,
        ),
        !strs(conflicts@).contains(path@) && on_phone(phone_files@, path@) ==> match destination_of(
            config.phone_root@,
            config.local_root@,
            path@,
        ) {
            None => result == Err::<Option<DownloadTarget>, Error>(
                Error::Protocol(ProtocolFault::PathOutsideRoot),
            ),
            Some(d) => result matches Ok(Some(t)) && t.remote_path@ == path@ && t.destination@ == d
                && t.file.same_as(phone_files@[first_on_phone(phone_files@, path@)]),
        },
{
    if contains_string(conflicts, path) {
        return Ok(None);
    }
    match find_phone_file(phone_files, path) {
        None => Ok(None),
        Some(i) => {
            let destination = local_destination(config, path)?;
            proof {
                let k = first_on_phone(phone_files@, path@);
                assert(0 <= i < phone_files@.len() && phone_files@[i as int].path@ == path@
                    && forall|j: int| 0 <= j < i ==> phone_files@[j].path@ != path@);
                if k != i {
                    if k < i {
                        assert(phone_files@[k].path@ != path@);
                    } else {
                        assert(phone_files@[i as int].path@ != path@);
                    }
                }
            }
            Ok(
                Some(
                    DownloadTarget {
                        remote_path: crate::text::owned(path),
                        destination,
                        file: phone_files[i].duplicate(),
                    },
                ),
            )
        },
    }
}

/// The ledger row for a downloaded phone file.
pub open spec fn downloaded_record(f: RemoteFile, local_path: Seq<char>, sha: Seq<char>) -> RecordView {
    RecordView {
        size: f.size,
        checksum: ostr(f.checksum),
        ext_data: ostr(f.ext_data),
        modified_at: f.modified_at,
        local_path,
        local_sha256: Some(sha),
    }
}

/// Record a download outcome: on success (`Some((local path, local sha256))`)
/// the path joins `downloaded` and its ledger row is replaced from the phone
/// state; on failure the path joins `failures` and the ledger is unchanged.
pub fn record_download(
    updated: &mut SyncSnapshot,
    result: &mut SyncRunResult,
    remote_path: &String,
    file: &RemoteFile,
    outcome: Option<(String, String)>,
)
    requires
        old(updated).wf(),
    ensures
        final(updated).wf(),
        strs(final(result).deleted@) == strs(old(result).deleted@),
        strs(final(result).conflicts@) == strs(old(result).conflicts@),
        match outcome {
            Some((local, sha)) => {
                &&& strs(final(result).downloaded@) == strs(old(result).downloaded@).push(remote_path@)
                &&& strs(final(result).failures@) == strs(old(result).failures@)
                &&& forall|k: Seq<char>| #[trigger] final(updated).lookup(k) == if k == remote_path@ {
                    Some(downloaded_record(*file, local@, sha@))
                } else {
                    old(updated).lookup(k)
                }
            },
            None => {
                &&& strs(final(result).downloaded@) == strs(old(result).downloaded@)
                &&& strs(final(result).failures@) == strs(old(result).failures@).push(remote_path@)
                &&& final(updated).keys() == old(updated).keys()
                &&& forall|k: Seq<char>| #[trigger] final(updated).lookup(k) == old(updated).lookup(k)
            },
        },
{
    match outcome {
        Some((local_path, sha)) => {
            push_string(&mut result.downloaded, remote_path);
            let record = SyncFileRecord {
                size: file.size,
                checksum: copy_opt_string(&file.checksum),
                ext_data: copy_opt_string(&file.ext_data),
                modified_at: file.modified_at,
                local_path,
                local_sha256: Some(sha),
            };
            updated.insert(copy_string(remote_path), record);
        },
        None => {
            push_string(&mut result.failures, remote_path);
        },
    }
}

/// The local file a planned delete would remove: none for conflicts and
/// for paths without a ledger record.
pub fn delete_target(snapshot: &SyncSnapshot, path: &str, conflicts: &[String]) -> (r: Option<String>)
    requires
        snapshot.wf(),
    ensures
        strs(conflicts@).contains(path@) ==> r is None,
        !strs(conflicts@).contains(path@) ==> match snapshot.lookup(path@) {
            None => r is None,
            Some(rec) => r matches Some(l) && l@ == rec.local_path,
        },
{
    if contains_string(conflicts, path) {
        return None;
    }
    match snapshot.get(path) {
        None => None,
        Some(record) => Some(copy_string(&record.local_path)),
    }
}

/// What happened to the local file of a planned delete.
#[derive(Debug, Clone, Copy, PartialEq, Eq, Structural)]
pub enum DeleteOutcome {
    /// The local file did not exist.
    Missing,
    /// The local file was removed.
    Removed,
    /// Removing the local file failed.
    RemoveFailed,
}

/// Record a planned delete: a removed file joins `deleted`, a failed removal
/// joins `failures`, and the ledger row is dropped in every case.
pub fn record_delete(
    updated: &mut SyncSnapshot,
    result: &mut SyncRunResult,
    remote_path: &String,
    outcome: DeleteOutcome,
)
    requires
        old(updated).wf(),
    ensures
        final(updated).wf(),
        forall|k: Seq<char>| #[trigger] final(updated).lookup(k) == if k == remote_path@ {
            None
        } else {
            old(updated).lookup(k)
        },
        strs(final(result).downloaded@) == strs(old(result).downloaded@),
        strs(final(result).conflicts@) == strs(old(result).conflicts@),
        strs(final(result).deleted@) == if outcome == DeleteOutcome::Removed {
            strs(old(result).deleted@).push(remote_path@)
        } else {
            strs(old(result).deleted@)
        },
        strs(final(result).failures@) == if outcome == DeleteOutcome::RemoveFailed {
            strs(old(result).failures@).push(remote_path@)
        } else {
            strs(old(result).failures@)
        },
{
    match outcome {
        DeleteOutcome::Removed => push_string(&mut result.deleted, remote_path),
        DeleteOutcome::RemoveFailed => push_string(&mut result.failures, remote_path),
        DeleteOutcome::Missing => {},
    }
    updated.remove(remote_path.as_str());
}

/// A record refreshed from the phone's metadata: size, checksum, extension
/// data and modification time follow the phone; the local side is kept.
pub open spec fn info_updated(r: RecordView, f: RemoteFile) -> RecordView {
    RecordView {
        size: f.size,
        checksum: ostr(f.checksum),
        ext_data: ostr(f.ext_data),
        modified_at: f.modified_at,
        local_path: r.local_path,
        local_sha256: r.local_sha256,
    }
}

/// Refresh the recorded metadata of `path` from a phone entry, if recorded.
pub fn refresh_record(updated: &mut SyncSnapshot, path: &str, file: &RemoteFile)
    requires
        old(updated).wf(),
    ensures
        final(updated).wf(),
        final(updated).keys() == old(updated).keys(),
        forall|k: Seq<char>| #[trigger] final(updated).lookup(k) == if k == path@ {
            match old(updated).lookup(k) {
                Some(r) => Some(info_updated(r, *file)),
                None => None,
            }
        } else {
            old(updated).lookup(k)
        },
{
    match updated.find(path) {
        None => {},
        Some(i) => {
            let old_record = updated.entry(i).record.duplicate();
            let record = SyncFileRecord {
                size: file.size,
                checksum: copy_opt_string(&file.checksum),
                ext_data: copy_opt_string(&file.ext_data),
                modified_at: file.modified_at,
                local_path: old_record.local_path,
                local_sha256: old_record.local_sha256,
            };
            updated.set_record(i, record);
        },
    }
}

/// The record of `k` after the metadata-only changes `info`: refreshed from
/// the first phone entry with its path when `k` is listed and still on the
/// phone, unchanged otherwise.
pub open spec fn info_applied(before: Option<RecordView>, info: Seq<Seq<char>>, phone: Seq<RemoteFile>, k: Seq<char>) -> Option<RecordView> {
    if info.contains(k) && on_phone(phone, k) {
        match before {
            Some(r) => Some(info_updated(r, phone[first_on_phone(phone, k)])),
            None => None,
        }
    } else {
        before
    }
}

/// Apply the plan's metadata-only changes: every `info_modified` path that
/// is still on the phone has its record refreshed from the first phone
/// entry with that path (see `info_applied`).
pub fn apply_info_modified(updated: &mut SyncSnapshot, phone_files: &[RemoteFile], diff: &SyncDiff)
    requires
        old(updated).wf(),
    ensures
        final(updated).wf(),
        final(updated).keys() == old(updated).keys(),
        forall|k: Seq<char>| #[trigger] final(updated).lookup(k) == info_applied(
            old(updated).lookup(k),
            strs(diff.info_modified@),
            phone_files@,
            k,
        ),
{
    let ghost info = strs(diff.info_modified@);
    let mut i: usize = 0;
    while i < diff.info_modified.len()
        invariant
            i <= diff.info_modified@.len(),
            info == strs(diff.info_modified@),
            updated.wf(),
            updated.keys() == old(updated).keys(),
            forall|k: Seq<char>| #[trigger] updated.lookup(k) == info_applied(
                old(updated).lookup(k),
                info.subrange(0, i as int),
                phone_files@,
                k,
            ),
        decreases diff.info_modified@.len() - i,
    {
        let path = &diff.info_modified[i];
        let ghost pre = info.subrange(0, i as int);
        let ghost post = info.subrange(0, i as int + 1);
        assert(post =~= pre.push(path@));
        let ghost before = *updated;
        match find_phone_file(phone_files, path.as_str()) {
            None => {
                assert forall|k: Seq<char>| #[trigger] updated.lookup(k) == info_applied(
                    old(updated).lookup(k),
                    post,
                    phone_files@,
                    k,
                ) by {
                    assert(before.lookup(k) == info_applied(old(updated).lookup(k), pre, phone_files@, k));
                    if k != path@ && post.contains(k) {
                        let x = post.index_of(k);
                        assert(pre[x] == k);
                    }
                    if pre.contains(k) {
                        let x = pre.index_of(k);
                        assert(post[x] == k);
                    }
                }
            },
            Some(j) => {
                proof {
                    let q = first_on_phone(phone_files@, path@);
                    if q != j {
                        if q < j {
                            assert(phone_files@[q].path@ != path@);
                        } else {
                            assert(phone_files@[j as int].path@ != path@);
                        }
                    }
                }
                refresh_record(updated, path.as_str(), &phone_files[j]);
                assert forall|k: Seq<char>| #[trigger] updated.lookup(k) == info_applied(
                    old(updated).lookup(k),
                    post,
                    phone_files@,
                    k,
                ) by {
                    assert(before.lookup(k) == info_applied(old(updated).lookup(k), pre, phone_files@, k));
                    if k != path@ && post.contains(k) {
                        let x = post.index_of(k);
                        assert(pre[x] == k);
                    }
                    if pre.contains(k) {
                        let x = pre.index_of(k);
                        assert(post[x] == k);
                    }
                    if k == path@ {
                        assert(post[i as int] == k);
                    }
                }
            },
        }
        i = i + 1;
    }
    assert(info.subrange(0, diff.info_modified@.len() as int) =~= info);
}

/// What one pushed photo-sync file change asks of the host.
#[derive(Debug, Clone, PartialEq, Eq)]
pub enum FileChangeStep {
    /// Nothing: the change names no file, names a directory, or deletes a
    /// path the ledger does not record.
    Nothing,
    /// Download the file to this destination, then `record_download`.
    Download {
        /// Local destination.
        destination: String,
    },
    /// Remove this recorded local file if it exists, then `forget_deleted`.
    Delete {
        /// The recorded local file.
        local_path: String,
    },
    /// Refresh the recorded metadata with `refresh_record`.
    Refresh,
}

/// The step for one pushed file change: added or modified content is
/// downloaded to its local destination (a path outside the phone root
/// stops with an error); a delete removes the recorded local file; any
/// other state refreshes the recorded metadata. Changes without a file and
/// directory changes do nothing.
pub fn file_change_step(config: &SyncConfig, change: &FileChange, snapshot: &SyncSnapshot) -> (r: Result<FileChangeStep, Error>)
    requires
        snapshot.wf(),
    ensures
        (change.file is None || change.file->0.is_directory) ==> r == Ok::<FileChangeStep, Error>(FileChangeStep::Nothing),
        change.file matches Some(f) ==> (!f.is_directory ==> match change.status {
            FileChangeStatus::Added | FileChangeStatus::Modified | FileChangeStatus::FileAndInfoModified => match destination_of(
                config.phone_root@,
                config.local_root@,
                f.path@,
            ) {
                Some(d) => r matches Ok(FileChangeStep::Download { destination }) && destination@ == d,
                None => r == Err::<FileChangeStep, Error>(Error::Protocol(ProtocolFault::PathOutsideRoot)),
            },
            FileChangeStatus::Deleted => match snapshot.lookup(f.path@) {
                Some(rec) => r matches Ok(FileChangeStep::Delete { local_path }) && local_path@ == rec.local_path,
                None => r == Ok::<FileChangeStep, Error>(FileChangeStep::Nothing),
            },
            _ => r == Ok::<FileChangeStep, Error>(FileChangeStep::Refresh),
        }),
{
    let file = match &change.file {
        None => return Ok(FileChangeStep::Nothing),
        Some(f) => f,
    };
    if file.is_directory {
        return Ok(FileChangeStep::Nothing);
    }
    match change.status {
        FileChangeStatus::Added | FileChangeStatus::Modified | FileChangeStatus::FileAndInfoModified => {
            let destination = local_destination(config, file.path.as_str())?;
            Ok(FileChangeStep::Download { destination })
        },
        FileChangeStatus::Deleted => match snapshot.get(file.path.as_str()) {
            Some(record) => Ok(FileChangeStep::Delete { local_path: copy_string(&record.local_path) }),
            None => Ok(FileChangeStep::Nothing),
        },
        _ => Ok(FileChangeStep::Refresh),
    }
}

/// Forget a path deleted on the phone: it joins `deleted` when its local
/// file was removed, and its ledger row is dropped either way.
pub fn forget_deleted(updated: &mut SyncSnapshot, result: &mut SyncRunResult, remote_path: &String, removed: bool)
    requires
        old(updated).wf(),
    ensures
        final(updated).wf(),
        forall|k: Seq<char>| #[trigger] final(updated).lookup(k) == if k == remote_path@ {
            None
        } else {
            old(updated).lookup(k)
        },
        strs(final(result).deleted@) == if removed {
            strs(old(result).deleted@).push(remote_path@)
        } else {
            strs(old(result).deleted@)
        },
        strs(final(result).downloaded@) == strs(old(result).downloaded@),
        strs(final(result).failures@) == strs(old(result).failures@),
        strs(final(result).conflicts@) == strs(old(result).conflicts@),
{
    if removed {
        push_string(&mut result.deleted, remote_path);
    }
    updated.remove(remote_path.as_str());
}

/// The ledger after a successful run records every non-directory phone
/// file with its current checksum, extension data and modification time;
/// planning again then downloads nothing and refreshes nothing.
pub proof fn law_replanning_recorded_files_is_empty(phone: Seq<RemoteFile>, snap: SyncSnapshot)
    requires
        forall|i: int| 0 <= i < phone.len() && !(#[trigger] phone[i]).is_directory ==> (
        snap.lookup(phone[i].path@) matches Some(r) && r.checksum == ostr(phone[i].checksum)
            && r.ext_data == ostr(phone[i].ext_data) && r.modified_at == phone[i].modified_at),
    ensures
        added_paths(phone, snap).len() == 0,
        info_paths(phone, snap).len() == 0,
    decreases phone.len(),
{
    if phone.len() > 0 {
        let d = phone.drop_last();
        assert forall|i: int| 0 <= i < d.len() && !(#[trigger] d[i]).is_directory implies (
        snap.lookup(d[i].path@) matches Some(r) && r.checksum == ostr(d[i].checksum)
            && r.ext_data == ostr(d[i].ext_data) && r.modified_at == d[i].modified_at) by {
            assert(d[i] == phone[i]);
        }
        law_replanning_recorded_files_is_empty(d, snap);
        assert(phone.last() == phone[phone.len() - 1]);
    }
}

/// Files recorded in the ledger and still on the phone are never planned
/// for deletion; every planned deletion was recorded and is gone from the
/// phone.
pub proof fn law_deleted_only_when_gone(keys: Seq<Seq<char>>, phone: Seq<RemoteFile>, k: Seq<char>)
    ensures
        deleted_paths(keys, phone).contains(k) <==> (keys.contains(k) && !on_phone(phone, k)),
    decreases keys.len(),
{
    if keys.len() > 0 {
        law_deleted_only_when_gone(keys.drop_last(), phone, k);
        let d = keys.drop_last();
        if d.contains(k) {
            let j = d.index_of(k);
            assert(keys[j] == k);
        }
        if keys.contains(k) && k != keys.last() {
            let j = keys.index_of(k);
            assert(j != keys.len() - 1);
            assert(d[j] == k);
        }
        let r = deleted_paths(d, phone);
        if !on_phone(phone, keys.last()) {
            assert(r.push(keys.last())[r.len() as int] == keys.last());
            if r.push(keys.last()).contains(k) && k != keys.last() {
                let j = r.push(keys.last()).index_of(k);
                assert(r[j] == k);
            }
            if r.contains(k) {
                let j = r.index_of(k);
                assert(r.push(keys.last())[j] == k);
            }
        }
    }
}

/// Probes for a list of planned paths cover each listed path whose record
/// carries a local hash.
proof fn lemma_listed_paths_are_probed(paths: Seq<Seq<char>>, snap: SyncSnapshot, p: Seq<char>, lp: Seq<char>, h: Seq<char>)
    requires
        paths.contains(p),
        snap.lookup(p) matches Some(r) && r.local_sha256 == Some(h) && r.local_path == lp,
    ensures
        probes_for(paths, snap).contains((p, lp, h)),
    decreases paths.len(),
{
    let rest = probes_for(paths.drop_last(), snap);
    if paths.last() == p {
        assert(probes_for(paths, snap) == rest.push((p, lp, h)));
        assert(rest.push((p, lp, h))[rest.len() as int] == (p, lp, h));
    } else {
        let j = paths.index_of(p);
        assert(paths.drop_last()[j] == p);
        lemma_listed_paths_are_probed(paths.drop_last(), snap, p, lp, h);
        let k = rest.index_of((p, lp, h));
        match snap.lookup(paths.last()) {
            Some(r) => match r.local_sha256 {
                Some(hh) => {
                    assert(rest.push((paths.last(), r.local_path, hh))[k] == (p, lp, h));
                },
                None => {},
            },
            None => {},
        }
    }
}

/// Every path the plan would download or delete, whose ledger record
/// carries the hash of the local file, is probed with that local path and
/// hash, so a local file edited since it was synced is found before the
/// plan overwrites or deletes it.
pub proof fn law_planned_paths_are_probed(diff: SyncDiff, snap: SyncSnapshot, p: Seq<char>, lp: Seq<char>, h: Seq<char>)
    requires
        strs(diff.added@).contains(p) || strs(diff.deleted@).contains(p),
        snap.lookup(p) matches Some(r) && r.local_sha256 == Some(h) && r.local_path == lp,
    ensures
        diff_probes(diff, snap).contains((p, lp, h)),
{
    let all = strs(diff.added@) + strs(diff.deleted@);
    if strs(diff.added@).contains(p) {
        let j = strs(diff.added@).index_of(p);
        assert(all[j] == p);
    } else {
        let j = strs(diff.deleted@).index_of(p);
        assert(all[strs(diff.added@).len() + j] == p);
    }
    lemma_listed_paths_are_probed(all, snap, p, lp, h);
}

/// A recorded phone file whose checksum is unchanged but whose
/// modification time or extension data changed is planned as a
/// metadata-only update.
pub proof fn law_metadata_changes_are_refreshed(phone: Seq<RemoteFile>, snap: SyncSnapshot, i: int)
    requires
        0 <= i < phone.len(),
        !phone[i].is_directory,
        snap.lookup(phone[i].path@) matches Some(r) && r.checksum == ostr(phone[i].checksum) && (r.modified_at
            != phone[i].modified_at || r.ext_data != ostr(phone[i].ext_data)),
    ensures
        info_paths(phone, snap).contains(phone[i].path@),
    decreases phone.len(),
{
    let rest = info_paths(phone.drop_last(), snap);
    if i == phone.len() - 1 {
        assert(phone.last() == phone[i]);
        assert(info_paths(phone, snap) == rest.push(phone[i].path@));
        assert(rest.push(phone[i].path@)[rest.len() as int] == phone[i].path@);
    } else {
        assert(phone.drop_last()[i] == phone[i]);
        law_metadata_changes_are_refreshed(phone.drop_last(), snap, i);
        let k = rest.index_of(phone[i].path@);
        if needs_info_update(phone.last(), snap) {
            assert(rest.push(phone.last().path@)[k] == phone[i].path@);
        }
    }
}

} // verus!
