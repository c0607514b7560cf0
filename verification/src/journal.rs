//! The sync action journal: a one-entry write-ahead log that makes each
//! "local file side effect + ledger update" pair crash-safe.
//!
//! Download: staged file synced, journal written, staged renamed onto the
//! final path, ledger saved, journal cleared. Delete: journal written, file
//! renamed to a trash name, ledger saved, trash removed, journal cleared.
//!
//! Recovery is a small state machine over what is observed on disk. Each
//! step looks at the journaled action and whether its two files exist, and
//! says what to do next; the caller performs the action and observes again.
//! Recovery only ever completes the exact action that was journaled.
use vstd::prelude::*;

use crate::domain::{RecordView, SyncFileRecord};
use crate::error::{ConfigFault, Error};
use crate::paths::{file_name_of, has_parent_segment, is_abs, join_path, parent_dir_of, path_segments};
use crate::snapshot::SyncSnapshot;
use crate::text::{chars_of, copy_string, string_from_chars};

verus! {

/// One pending file side effect, written before its irreversible step.
#[derive(Debug, Clone, PartialEq, Eq)]
pub enum PendingSyncAction {
    /// A download whose staged file is (or was) being renamed into place.
    Download {
        /// Phone path of the file.
        remote_path: String,
        /// Destination the staged file is renamed to.
        final_path: String,
        /// Fully downloaded temporary file; may be missing after a crash.
        staged_path: String,
        /// The exact ledger record to insert once the file is final.
        new_record: SyncFileRecord,
    },
    /// A delete whose file is (or was) being moved to a trash name.
    Delete {
        /// Phone path of the file.
        remote_path: String,
        /// The synced file; still present when the rename never ran.
        original_path: String,
        /// Same-directory trash name the file is renamed to.
        trash_path: String,
    },
}

/// What recovery does next.
#[derive(Debug, Clone, Copy, PartialEq, Eq, Structural)]
pub enum RecoveryAction {
    /// Create the final path's directory and rename the staged file onto
    /// it, then observe again.
    RenameStaged,
    /// Remove the trash file, then observe again.
    RemoveTrash,
    /// Save the returned snapshot, then clear the journal.
    SaveAndClear,
    /// Clear the journal; the returned snapshot is the one given.
    Clear,
    /// There is no journal: nothing to do, the snapshot is the one given.
    Done,
}

/// One recovery step: the action and the snapshot it commits.
#[derive(Debug)]
pub struct RecoveryStep {
    /// What to do next.
    pub action: RecoveryAction,
    /// The snapshot after this step.
    pub snapshot: SyncSnapshot,
}

/// The journal file kept next to a ledger file.
#[derive(Debug)]
pub struct SyncJournal {
    path: String,
}

/// `.journal.json`.
pub open spec fn journal_suffix() -> Seq<char> {
    seq!['.', 'j', 'o', 'u', 'r', 'n', 'a', 'l', '.', 'j', 's', 'o', 'n']
}

/// `.json`.
pub open spec fn json_extension() -> Seq<char> {
    seq!['.', 'j', 's', 'o', 'n']
}

/// `ledger.journal.json`.
pub open spec fn default_journal_name() -> Seq<char> {
    seq!['l', 'e', 'd', 'g', 'e', 'r'] + journal_suffix()
}

/// A file name without its `.json` extension (kept whole when it has none).
pub open spec fn json_stem(name: Seq<char>) -> Seq<char> {
    if name.len() > 5 && name.subrange(name.len() - 5, name.len() as int) == json_extension() {
        name.subrange(0, name.len() - 5)
    } else {
        name
    }
}

/// Journal path for a ledger path: `<sync>/<ledger-key>.journal.json`, the
/// ledger's file name with its `.json` extension replaced by
/// `.journal.json`, in the same directory; `ledger.journal.json` under the
/// path when it has no file name (it is empty, a root, or ends in `..`).
pub open spec fn journal_path_of(ledger: Seq<char>) -> Seq<char> {
    match file_name_of(ledger) {
        Some(name) => join_path(parent_dir_of(ledger), json_stem(name) + journal_suffix()),
        None => join_path(ledger, default_journal_name()),
    }
}

/// A journaled path recovery may touch: absolute, with no `..` part.
pub open spec fn safe_path(p: Seq<char>) -> bool {
    is_abs(p) && !has_parent_segment(path_segments(p))
}

/// Both paths of a journaled action are safe.
pub open spec fn action_safe(a: PendingSyncAction) -> bool {
    match a {
        PendingSyncAction::Download { final_path, staged_path, .. } => safe_path(final_path@)
            && safe_path(staged_path@),
        PendingSyncAction::Delete { original_path, trash_path, .. } => safe_path(original_path@)
            && safe_path(trash_path@),
    }
}

/// Phone path of a journaled action.
pub open spec fn action_remote(a: PendingSyncAction) -> Seq<char> {
    match a {
        PendingSyncAction::Download { remote_path, .. } => remote_path@,
        PendingSyncAction::Delete { remote_path, .. } => remote_path@,
    }
}

/// The next recovery action for a journaled action, given whether its
/// primary file (final path of a download, original of a delete) and its
/// secondary file (staged file, trash file) exist.
pub open spec fn next_action(a: PendingSyncAction, primary: bool, secondary: bool) -> RecoveryAction {
    match a {
        PendingSyncAction::Download { .. } => if primary {
            RecoveryAction::SaveAndClear
        } else if secondary {
            RecoveryAction::RenameStaged
        } else {
            RecoveryAction::Clear
        },
        PendingSyncAction::Delete { .. } => if secondary {
            RecoveryAction::RemoveTrash
        } else if primary {
            RecoveryAction::Clear
        } else {
            RecoveryAction::SaveAndClear
        },
    }
}

/// The recovery action for a journal holding `pending` (`None`: no
/// journal).
pub open spec fn step_action(pending: Option<PendingSyncAction>, primary: bool, secondary: bool) -> RecoveryAction {
    match pending {
        None => RecoveryAction::Done,
        Some(a) => next_action(a, primary, secondary),
    }
}

/// The record for `k` after a recovery step on `snap`: a committed
/// download records its new record, a committed delete drops its row, and
/// everything else stays.
pub open spec fn step_lookup(
    pending: Option<PendingSyncAction>,
    primary: bool,
    secondary: bool,
    snap: SyncSnapshot,
    k: Seq<char>,
) -> Option<RecordView> {
    match pending {
        None => snap.lookup(k),
        Some(a) => if next_action(a, primary, secondary) == RecoveryAction::SaveAndClear && k == action_remote(a) {
            match a {
                PendingSyncAction::Download { new_record, .. } => Some(new_record.view()),
                PendingSyncAction::Delete { .. } => None,
            }
        } else {
            snap.lookup(k)
        },
    }
}

impl SyncJournal {
    /// Where this journal lives.
    pub closed spec fn spec_path(&self) -> Seq<char> {
        self.path@
    }

    /// A file name without its `.json` extension (see `json_stem`).
    fn stem_of(name: &Vec<char>) -> (r: Vec<char>)
        ensures
            r@ == json_stem(name@),
    {
        let n = name.len();
        let ext = n > 5 && name[n - 5] == '.' && name[n - 4] == 'j' && name[n - 3] == 's' && name[n - 2] == 'o'
            && name[n - 1] == 'n';
        proof {
            if n > 5 {
                let tail = name@.subrange(n - 5, n as int);
                if tail == json_extension() {
                    assert(tail[0] == name@[n - 5] && tail[1] == name@[n - 4] && tail[2] == name@[n - 3]
                        && tail[3] == name@[n - 2] && tail[4] == name@[n - 1]);
                }
                if ext {
                    assert(tail =~= json_extension());
                }
            }
        }
        let mut out: Vec<char> = Vec::new();
        let keep = if ext {
            n - 5
        } else {
            n
        };
        let mut i: usize = 0;
        while i < keep
            invariant
                keep <= n == name@.len(),
                i <= keep,
                out@ == name@.subrange(0, i as int),
            decreases keep - i,
        {
            out.push(name[i]);
            i = i + 1;
            assert(out@ =~= name@.subrange(0, i as int));
        }
        assert(name@.subrange(0, n as int) =~= name@);
        out
    }

    /// Journal for a ledger file (see `journal_path_of`).
    pub fn for_ledger(ledger_path: &str) -> (r: Self)
        ensures
            r.spec_path() == journal_path_of(ledger_path@),
    {
        let mut out: Vec<char> = Vec::new();
        match crate::paths::parent_and_name(ledger_path) {
            Some((dir, name)) => {
                crate::paths::push_join_base(&mut out, &dir);
                let stem = Self::stem_of(&name);
                crate::text::append_chars(&mut out, &stem);
                crate::text::append_str(&mut out, ".journal.json");
                proof {
                    reveal_strlit(".journal.json");
                    assert(out@ =~= join_path(dir@, stem@ + journal_suffix()));
                }
            },
            None => {
                crate::paths::push_join_base(&mut out, &chars_of(ledger_path));
                crate::text::append_str(&mut out, "ledger.journal.json");
                proof {
                    reveal_strlit("ledger.journal.json");
                    assert(out@ =~= join_path(ledger_path@, default_journal_name()));
                }
            },
        }
        SyncJournal { path: string_from_chars(out.as_slice()) }
    }

    /// The journal file path.
    pub fn path(&self) -> (r: &str)
        ensures
            r@ == self.spec_path(),
    {
        self.path.as_str()
    }

    /// Whether recovery may touch a journaled path (see `safe_path`): a
    /// tampered journal must never make it touch files elsewhere.
    fn path_is_safe(path: &str) -> (r: bool)
        ensures
            r == safe_path(path@),
    {
        let cs = chars_of(path);
        if cs.len() == 0 || cs[0] != '/' {
            return false;
        }
        let segs = crate::paths::segments(&cs);
        let bad = crate::paths::any_parent_segment(&segs, 0);
        assert(segs@.map_values(|v: Vec<char>| v@).subrange(0, segs@.len() as int) =~= segs@.map_values(
            |v: Vec<char>| v@,
        ));
        !bad
    }

    /// One recovery step for the journaled action `pending` (`None` when
    /// there is no journal), given whether its primary file (final path of
    /// a download, original of a delete) and secondary file (staged file,
    /// trash file) exist now.
    ///
    /// Without a journal there is nothing to do and the snapshot stays as
    /// it is, so a recovery run again after a completed one changes
    /// nothing. A journal naming an unsafe path is refused before anything is
    /// touched. A download whose final file exists is recorded; one whose
    /// staged file alone exists is renamed first; one with neither never
    /// landed and is dropped. A delete with a trash file has it removed
    /// first; one whose original still exists never happened and is
    /// dropped (the row stays for the next run); one with neither is done
    /// and its row is removed.
    pub fn recover(
        &self,
        pending: &Option<PendingSyncAction>,
        snapshot: &SyncSnapshot,
        primary_exists: bool,
        secondary_exists: bool,
    ) -> (r: Result<RecoveryStep, Error>)
        requires
            snapshot.wf(),
        ensures
            match *pending {
                None => r matches Ok(step) && step.action == RecoveryAction::Done && step.snapshot.wf()
                    && step.snapshot.keys() == snapshot.keys() && forall|k: Seq<char>| #[trigger]
                    step.snapshot.lookup(k) == snapshot.lookup(k),
                Some(a) => {
                    &&& !action_safe(a) <==> r == Err::<RecoveryStep, Error>(
                        Error::Configuration(ConfigFault::JournalUnsafe),
                    )
                    &&& action_safe(a) ==> r is Ok
                    &&& r is Ok ==> ({
                        let step = r->Ok_0;
                        &&& step.snapshot.wf()
                        &&& step.action == step_action(*pending, primary_exists, secondary_exists)
                        &&& forall|k: Seq<char>| #[trigger] step.snapshot.lookup(k) == step_lookup(
                            *pending,
                            primary_exists,
                            secondary_exists,
                            *snapshot,
                            k,
                        )
                    })
                },
            },
    {
        let pending = match pending {
            None => {
                return Ok(RecoveryStep { action: RecoveryAction::Done, snapshot: snapshot.duplicate() });
            },
            Some(a) => a,
        };
        let safe = match pending {
            PendingSyncAction::Download { final_path, staged_path, .. } => Self::path_is_safe(
                final_path.as_str(),
            ) && Self::path_is_safe(staged_path.as_str()),
            PendingSyncAction::Delete { original_path, trash_path, .. } => Self::path_is_safe(
                original_path.as_str(),
            ) && Self::path_is_safe(trash_path.as_str()),
        };
        if !safe {
            return Err(Error::Configuration(ConfigFault::JournalUnsafe));
        }
        let mut updated = snapshot.duplicate();
        let action = match pending {
            PendingSyncAction::Download { remote_path, new_record, .. } => {
                if primary_exists {
                    updated.insert(copy_string(remote_path), new_record.duplicate());
                    RecoveryAction::SaveAndClear
                } else if secondary_exists {
                    RecoveryAction::RenameStaged
                } else {
                    RecoveryAction::Clear
                }
            },
            PendingSyncAction::Delete { remote_path, .. } => {
                if secondary_exists {
                    RecoveryAction::RemoveTrash
                } else if primary_exists {
                    RecoveryAction::Clear
                } else {
                    updated.remove(remote_path.as_str());
                    RecoveryAction::SaveAndClear
                }
            },
        };
        Ok(RecoveryStep { action, snapshot: updated })
    }
}

/// Recovery ends: after a rename of the staged file (final now present,
/// staged gone) or the removal of the trash file (trash gone), the next
/// step commits or clears; it never asks for another file operation.
pub proof fn law_recovery_terminates(pending: PendingSyncAction, primary: bool, secondary: bool)
    ensures
        next_action(pending, primary, secondary) == RecoveryAction::RenameStaged ==> {
            let after = next_action(pending, true, false);
            after == RecoveryAction::SaveAndClear
        },
        next_action(pending, primary, secondary) == RecoveryAction::RemoveTrash ==> {
            let after = next_action(pending, primary, false);
            after == RecoveryAction::SaveAndClear || after == RecoveryAction::Clear
        },
{
}

/// A download is recorded exactly when its final file is there, and a
/// delete drops the ledger row exactly when neither the original nor the
/// trash file remains: recovery never adopts a file it did not write.
pub proof fn law_recovery_commits_only_landed_effects(pending: PendingSyncAction, primary: bool, secondary: bool)
    ensures
        (next_action(pending, primary, secondary) == RecoveryAction::SaveAndClear) == match pending {
            PendingSyncAction::Download { .. } => primary,
            PendingSyncAction::Delete { .. } => !primary && !secondary,
        },
{
}

/// Replaying recovery changes nothing: once a step commits (`Clear` or
/// `SaveAndClear`) its journal is removed, so the next recovery finds no
/// journal, does nothing, and keeps the committed snapshot as it is,
/// whatever it observes on disk.
pub proof fn law_replay_is_idempotent(
    pending: PendingSyncAction,
    primary: bool,
    secondary: bool,
    committed: SyncSnapshot,
    later_primary: bool,
    later_secondary: bool,
    k: Seq<char>,
)
    requires
        step_action(Some(pending), primary, secondary) == RecoveryAction::Clear || step_action(
            Some(pending),
            primary,
            secondary,
        ) == RecoveryAction::SaveAndClear,
    ensures
        step_action(None, later_primary, later_secondary) == RecoveryAction::Done,
        step_lookup(None, later_primary, later_secondary, committed, k) == committed.lookup(k),
{
}

} // verus!
