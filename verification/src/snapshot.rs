//! The sync ledger snapshot: records keyed by phone path, kept in ascending
//! path order (the order of the ledger file and of every listing).
use vstd::prelude::*;

use crate::domain::{RecordView, SyncFileRecord};
use crate::text::chars_of;

verus! {

/// Lexicographic order on character sequences; for strings this is the
/// order of their UTF-8 bytes.
pub open spec fn str_lt(a: Seq<char>, b: Seq<char>) -> bool
    decreases a.len(),
{
    if a.len() == 0 {
        b.len() > 0
    } else if b.len() == 0 {
        false
    } else if a[0] != b[0] {
        (a[0] as int) < (b[0] as int)
    } else {
        str_lt(a.drop_first(), b.drop_first())
    }
}

/// No string is below itself.
pub proof fn lemma_str_lt_irreflexive(a: Seq<char>)
    ensures
        !str_lt(a, a),
    decreases a.len(),
{
    if a.len() > 0 {
        lemma_str_lt_irreflexive(a.drop_first());
    }
}

/// The order is transitive.
pub proof fn lemma_str_lt_transitive(a: Seq<char>, b: Seq<char>, c: Seq<char>)
    requires
        str_lt(a, b),
        str_lt(b, c),
    ensures
        str_lt(a, c),
    decreases a.len(),
{
    if a.len() > 0 && b.len() > 0 && c.len() > 0 {
        if a[0] == b[0] && b[0] == c[0] {
            lemma_str_lt_transitive(a.drop_first(), b.drop_first(), c.drop_first());
        }
    }
}

/// Distinct strings are ordered one way or the other.
pub proof fn lemma_str_lt_total(a: Seq<char>, b: Seq<char>)
    requires
        a != b,
    ensures
        str_lt(a, b) || str_lt(b, a),
    decreases a.len(),
{
    if a.len() > 0 && b.len() > 0 && a[0] == b[0] {
        if a.drop_first() =~= b.drop_first() {
            assert(a.len() == b.len());
            assert forall|i: int| 0 <= i < a.len() implies a[i] == b[i] by {
                if i > 0 {
                    assert(a[i] == a.drop_first()[i - 1]);
                    assert(b[i] == b.drop_first()[i - 1]);
                }
            }
            assert(a =~= b);
        } else {
            lemma_str_lt_total(a.drop_first(), b.drop_first());
        }
    } else if a.len() == 0 && b.len() == 0 {
        assert(a =~= b);
    } else if a.len() > 0 && b.len() > 0 {
        assert(a[0] != b[0]);
    }
}

/// Exec comparison of two strings in `str_lt` order.
pub fn str_less(a: &str, b: &str) -> (r: bool)
    ensures
        r == str_lt(a@, b@),
{
    let x = chars_of(a);
    let y = chars_of(b);
    let mut i: usize = 0;
    assert(x@.subrange(0, x@.len() as int) =~= x@);
    assert(y@.subrange(0, y@.len() as int) =~= y@);
    while i < x.len() && i < y.len() && x[i] == y[i]
        invariant
            i <= x@.len(),
            i <= y@.len(),
            x@ == a@,
            y@ == b@,
            str_lt(a@, b@) == str_lt(x@.subrange(i as int, x@.len() as int), y@.subrange(
                i as int,
                y@.len() as int,
            )),
        decreases x@.len() - i,
    {
        assert(x@.subrange(i as int, x@.len() as int).drop_first() =~= x@.subrange(
            i as int + 1,
            x@.len() as int,
        ));
        assert(y@.subrange(i as int, y@.len() as int).drop_first() =~= y@.subrange(
            i as int + 1,
            y@.len() as int,
        ));
        i = i + 1;
    }
    if i == x.len() {
        i < y.len()
    } else if i == y.len() {
        false
    } else {
        x[i] < y[i]
    }
}

/// One ledger entry: the phone path and its record.
#[derive(Debug, Clone, PartialEq, Eq)]
pub struct SyncEntry {
    /// Absolute phone path.
    pub path: String,
    /// What was recorded for it.
    pub record: SyncFileRecord,
}

/// Ledger snapshot keyed by absolute phone path, in ascending path order.
#[derive(Debug, Clone, PartialEq, Eq)]
pub struct SyncSnapshot {
    entries: Vec<SyncEntry>,
}

/// Paths of a sequence of entries.
pub open spec fn keys_of(es: Seq<SyncEntry>) -> Seq<Seq<char>> {
    es.map_values(|e: SyncEntry| e.path@)
}

/// Strictly ascending keys.
pub open spec fn sorted_keys(ks: Seq<Seq<char>>) -> bool {
    forall|i: int, j: int| 0 <= i < j < ks.len() ==> str_lt(#[trigger] ks[i], #[trigger] ks[j])
}

impl SyncSnapshot {
    /// The entries in path order.
    pub closed spec fn entries(&self) -> Seq<SyncEntry> {
        self.entries@
    }

    /// The paths in ascending order.
    pub open spec fn keys(&self) -> Seq<Seq<char>> {
        keys_of(self.entries())
    }

    /// Well-formedness: paths strictly ascending (hence unique).
    pub open spec fn wf(&self) -> bool {
        sorted_keys(self.keys())
    }

    /// Whether a path is recorded.
    pub open spec fn has(&self, k: Seq<char>) -> bool {
        self.keys().contains(k)
    }

    /// The record for a path, if any.
    pub open spec fn lookup(&self, k: Seq<char>) -> Option<RecordView> {
        if self.has(k) {
            Some(self.entries()[self.keys().index_of(k)].record.view())
        } else {
            None
        }
    }

    /// An empty snapshot.
    pub fn new() -> (r: Self)
        ensures
            r.wf(),
            r.entries().len() == 0,
    {
        SyncSnapshot { entries: Vec::new() }
    }

    /// A deep copy: the same paths with the same records.
    pub fn duplicate(&self) -> (r: Self)
        requires
            self.wf(),
        ensures
            r.wf(),
            r.keys() == self.keys(),
            forall|k: Seq<char>| #[trigger] r.lookup(k) == self.lookup(k),
    {
        let mut out: Vec<SyncEntry> = Vec::new();
        let mut i: usize = 0;
        while i < self.entries.len()
            invariant
                i <= self.entries@.len(),
                out@.len() == i,
                keys_of(out@) == keys_of(self.entries@.subrange(0, i as int)),
                forall|j: int| 0 <= j < i ==> #[trigger] out@[j].record.view() == self.entries@[j].record.view(),
            decreases self.entries@.len() - i,
        {
            let e = &self.entries[i];
            let ghost prev = out@;
            let ne = SyncEntry { path: crate::text::copy_string(&e.path), record: e.record.duplicate() };
            assert(ne.path@ == self.entries@[i as int].path@);
            assert(ne.record.view() == self.entries@[i as int].record.view());
            out.push(ne);
            assert(out@ == prev.push(ne));
            assert forall|j: int| 0 <= j < i + 1 implies #[trigger] out@[j].record.view() == self.entries@[j].record.view() by {
                if j < i {
                    assert(out@[j] == prev[j]);
                    assert(prev[j].record.view() == self.entries@[j].record.view());
                } else {
                    assert(out@[j] == ne);
                }
            }
            assert(keys_of(out@) =~= keys_of(self.entries@.subrange(0, i as int + 1))) by {
                assert(keys_of(out@) =~= keys_of(prev).push(ne.path@));
                assert(self.entries@.subrange(0, i as int + 1) =~= self.entries@.subrange(0, i as int).push(self.entries@[i as int]));
            }
            i = i + 1;
        }
        assert(self.entries@.subrange(0, self.entries@.len() as int) =~= self.entries@);
        let r = SyncSnapshot { entries: out };
        proof {
            assert forall|k: Seq<char>| #[trigger] r.lookup(k) == self.lookup(k) by {
                if r.has(k) {
                    let j = r.keys().index_of(k);
                    assert(r.entries()[j].record.view() == self.entries()[j].record.view());
                }
            }
        }
        r
    }

    /// Number of recorded paths.
    pub fn len(&self) -> (n: usize)
        ensures
            n == self.entries().len(),
    {
        self.entries.len()
    }

    /// The entry at position `i` in path order.
    pub fn entry(&self, i: usize) -> (e: &SyncEntry)
        requires
            i < self.entries().len(),
        ensures
            *e == self.entries()[i as int],
    {
        &self.entries[i]
    }

    /// Position of `path`, if recorded.
    pub fn find(&self, path: &str) -> (r: Option<usize>)
        requires
            self.wf(),
        ensures
            r matches Some(i) ==> i < self.entries().len() && self.keys()[i as int] == path@
                && self.keys().index_of(path@) == i,
            r is None ==> !self.has(path@),
    {
        let mut i: usize = 0;
        while i < self.entries.len()
            invariant
                i <= self.entries@.len(),
                self.wf(),
                forall|j: int| 0 <= j < i ==> self.keys()[j] != path@,
            decreases self.entries@.len() - i,
        {
            if crate::text::str_eq(self.entries[i].path.as_str(), path) {
                proof {
                    lemma_sorted_unique(self.keys(), i as int);
                }
                return Some(i);
            }
            i = i + 1;
        }
        None
    }

    /// The record for `path`, if any.
    pub fn get(&self, path: &str) -> (r: Option<&SyncFileRecord>)
        requires
            self.wf(),
        ensures
            r matches Some(rec) ==> self.lookup(path@) == Some(rec.view()),
            r is None ==> self.lookup(path@) is None,
    {
        match self.find(path) {
            Some(i) => Some(&self.entries[i].record),
            None => None,
        }
    }

    /// Insert or replace the record for `path`, keeping path order.
    pub fn insert(&mut self, path: String, record: SyncFileRecord)
        requires
            old(self).wf(),
        ensures
            final(self).wf(),
            forall|k: Seq<char>| #[trigger] final(self).lookup(k) == if k == path@ {
                Some(record.view())
            } else {
                old(self).lookup(k)
            },
            forall|k: Seq<char>| #[trigger] final(self).has(k) == (k == path@ || old(self).has(k)),
    {
        let ghost ks = old(self).keys();
        let mut i: usize = 0;
        while i < self.entries.len() && str_less(self.entries[i].path.as_str(), path.as_str())
            invariant
                i <= self.entries@.len(),
                self.entries@ == old(self).entries@,
                ks == keys_of(old(self).entries@),
                forall|j: int| 0 <= j < i ==> str_lt(#[trigger] ks[j], path@),
            decreases self.entries@.len() - i,
        {
            assert(ks[i as int] == self.entries@[i as int].path@);
            i = i + 1;
        }
        let ghost pos = i as int;
        if i < self.entries.len() && crate::text::str_eq(self.entries[i].path.as_str(), path.as_str()) {
            let ghost old_entries = self.entries@;
            self.entries.set(i, SyncEntry { path, record });
            proof {
                assert(self.keys() =~= ks.update(pos, path@));
                lemma_sorted_unique(ks, pos);
                assert forall|k: Seq<char>| #[trigger] self.lookup(k) == if k == path@ {
                    Some(record.view())
                } else {
                    old(self).lookup(k)
                } by {
                    lemma_lookup_update(old_entries, pos, SyncEntry { path, record }, k);
                }
                assert forall|k: Seq<char>| #[trigger] self.has(k) == (k == path@ || old(self).has(k)) by {
                    if k == path@ {
                        assert(self.keys()[pos] == k);
                    } else {
                        if old(self).has(k) {
                            let j = ks.index_of(k);
                            assert(self.keys()[j] == k);
                        }
                        if self.has(k) {
                            let j = self.keys().index_of(k);
                            assert(ks[j] == k);
                        }
                    }
                }
            }
        } else {
            let ghost old_entries = self.entries@;
            proof {
                if pos < ks.len() {
                    lemma_str_lt_total(ks[pos], path@);
                }
            }
            self.entries.insert(i, SyncEntry { path, record });
            proof {
                let e = SyncEntry { path, record };
                assert(self.keys() =~= ks.insert(pos, path@));
                assert forall|a: int, b: int| 0 <= a < b < self.keys().len() implies str_lt(
                    #[trigger] self.keys()[a],
                    #[trigger] self.keys()[b],
                ) by {
                    let nk = self.keys();
                    if b < pos {
                        assert(nk[a] == ks[a] && nk[b] == ks[b]);
                    } else if b == pos {
                        assert(nk[a] == ks[a]);
                    } else if a < pos {
                        assert(nk[a] == ks[a] && nk[b] == ks[b - 1]);
                        lemma_str_lt_transitive(ks[a], path@, ks[pos]);
                        if b - 1 > pos {
                            lemma_str_lt_transitive(ks[a], ks[pos], ks[b - 1]);
                        }
                    } else if a == pos {
                        assert(nk[b] == ks[b - 1]);
                        if b - 1 > pos {
                            lemma_str_lt_transitive(path@, ks[pos], ks[b - 1]);
                        }
                    } else {
                        assert(nk[a] == ks[a - 1] && nk[b] == ks[b - 1]);
                    }
                }
                assert forall|k: Seq<char>| #[trigger] self.has(k) == (k == path@ || old(self).has(k)) by {
                    let nk = self.keys();
                    if k == path@ {
                        assert(nk[pos] == k);
                    } else {
                        if old(self).has(k) {
                            let j = ks.index_of(k);
                            if j < pos {
                                assert(nk[j] == k);
                            } else {
                                assert(nk[j + 1] == k);
                            }
                        }
                        if self.has(k) {
                            let j = nk.index_of(k);
                            if j < pos {
                                assert(ks[j] == k);
                            } else {
                                assert(j != pos);
                                assert(ks[j - 1] == k);
                            }
                        }
                    }
                }
                assert forall|k: Seq<char>| #[trigger] self.lookup(k) == if k == path@ {
                    Some(record.view())
                } else {
                    old(self).lookup(k)
                } by {
                    let nk = self.keys();
                    lemma_sorted_unique(nk, pos);
                    if k == path@ {
                        assert(nk[pos] == k);
                    } else if old(self).has(k) {
                        let j = ks.index_of(k);
                        lemma_sorted_unique(ks, j);
                        if j < pos {
                            assert(nk[j] == k);
                            lemma_sorted_unique(nk, j);
                        } else {
                            assert(nk[j + 1] == k);
                            lemma_sorted_unique(nk, j + 1);
                        }
                    } else {
                        if self.has(k) {
                            let j = nk.index_of(k);
                            if j < pos {
                                assert(ks[j] == k);
                            } else if j > pos {
                                assert(ks[j - 1] == k);
                            }
                        }
                    }
                }
            }
        }
    }

    /// Remove the record for `path`, if any.
    pub fn remove(&mut self, path: &str)
        requires
            old(self).wf(),
        ensures
            final(self).wf(),
            forall|k: Seq<char>| #[trigger] final(self).lookup(k) == if k == path@ {
                None
            } else {
                old(self).lookup(k)
            },
            forall|k: Seq<char>| #[trigger] final(self).has(k) == (k != path@ && old(self).has(k)),
    {
        let ghost ks = old(self).keys();
        match self.find(path) {
            None => {
                proof {
                    assert forall|k: Seq<char>| #[trigger] self.has(k) == (k != path@ && old(self).has(k)) by {}
                }
            },
            Some(i) => {
                self.entries.remove(i);
                proof {
                    let pos = i as int;
                    let nk = self.keys();
                    assert(nk =~= ks.remove(pos));
                    lemma_sorted_unique(ks, pos);
                    assert forall|a: int, b: int| 0 <= a < b < nk.len() implies str_lt(
                        #[trigger] nk[a],
                        #[trigger] nk[b],
                    ) by {
                        if b < pos {
                            assert(nk[a] == ks[a] && nk[b] == ks[b]);
                        } else if a < pos {
                            assert(nk[a] == ks[a] && nk[b] == ks[b + 1]);
                        } else {
                            assert(nk[a] == ks[a + 1] && nk[b] == ks[b + 1]);
                        }
                    }
                    assert forall|k: Seq<char>| #[trigger] self.has(k) == (k != path@ && old(self).has(k)) by {
                        if old(self).has(k) && k != path@ {
                            let j = ks.index_of(k);
                            if j < pos {
                                assert(nk[j] == k);
                            } else {
                                assert(nk[j - 1] == k);
                            }
                        }
                        if self.has(k) {
                            let j = nk.index_of(k);
                            if j < pos {
                                assert(ks[j] == k);
                                lemma_sorted_unique(ks, j);
                            } else {
                                assert(ks[j + 1] == k);
                                lemma_sorted_unique(ks, j + 1);
                            }
                        }
                    }
                    assert forall|k: Seq<char>| #[trigger] self.lookup(k) == if k == path@ {
                        None
                    } else {
                        old(self).lookup(k)
                    } by {
                        if self.has(k) {
                            let j = nk.index_of(k);
                            lemma_sorted_unique(nk, j);
                            if j < pos {
                                assert(ks[j] == k);
                                lemma_sorted_unique(ks, j);
                            } else {
                                assert(ks[j + 1] == k);
                                lemma_sorted_unique(ks, j + 1);
                            }
                        }
                    }
                }
            },
        }
    }

    /// Replace the record at position `i`, keeping its path.
    pub fn set_record(&mut self, i: usize, record: SyncFileRecord)
        requires
            old(self).wf(),
            i < old(self).entries().len(),
        ensures
            final(self).wf(),
            final(self).keys() == old(self).keys(),
            forall|k: Seq<char>| #[trigger] final(self).lookup(k) == if k == old(self).keys()[i as int] {
                Some(record.view())
            } else {
                old(self).lookup(k)
            },
    {
        let ghost old_entries = self.entries@;
        let path = crate::text::copy_string(&self.entries[i].path);
        let ghost e = SyncEntry { path, record };
        self.entries.set(i, SyncEntry { path, record });
        proof {
            assert(self.keys() =~= old(self).keys());
            lemma_sorted_unique(old(self).keys(), i as int);
            assert forall|k: Seq<char>| #[trigger] self.lookup(k) == if k == old(self).keys()[i as int] {
                Some(record.view())
            } else {
                old(self).lookup(k)
            } by {
                lemma_lookup_update(old_entries, i as int, e, k);
            }
        }
    }
}

/// In a strictly ascending key list, position `i` is the only one holding its key.
pub proof fn lemma_sorted_unique(ks: Seq<Seq<char>>, i: int)
    requires
        sorted_keys(ks),
        0 <= i < ks.len(),
    ensures
        ks.index_of(ks[i]) == i,
        forall|j: int| 0 <= j < ks.len() && j != i ==> ks[j] != ks[i],
{
    assert forall|j: int| 0 <= j < ks.len() && j != i implies ks[j] != ks[i] by {
        lemma_str_lt_irreflexive(ks[i]);
        if j < i {
            assert(str_lt(ks[j], ks[i]));
        } else {
            assert(str_lt(ks[i], ks[j]));
        }
    }
    assert(ks.contains(ks[i]));
    let k = ks.index_of(ks[i]);
    assert(ks[k] == ks[i]);
}

proof fn lemma_lookup_update(es: Seq<SyncEntry>, pos: int, e: SyncEntry, k: Seq<char>)
    requires
        0 <= pos < es.len(),
        e.path@ == es[pos].path@,
        sorted_keys(keys_of(es)),
    ensures
        ({
            let ns = es.update(pos, e);
            let nk = keys_of(ns);
            let ks = keys_of(es);
            (if nk.contains(k) {
                Some(ns[nk.index_of(k)].record.view())
            } else {
                None
            }) == if k == e.path@ {
                Some(e.record.view())
            } else if ks.contains(k) {
                Some(es[ks.index_of(k)].record.view())
            } else {
                None
            }
        }),
{
    let ns = es.update(pos, e);
    let nk = keys_of(ns);
    let ks = keys_of(es);
    assert(nk =~= ks);
    lemma_sorted_unique(ks, pos);
    if ks.contains(k) {
        let j = ks.index_of(k);
        lemma_sorted_unique(ks, j);
    }
}

} // verus!
