//! A small string-keyed map kept in ascending key order: the last value
//! inserted for a key wins, and values come out in key order.
use vstd::prelude::*;

use crate::snapshot::{lemma_sorted_unique, lemma_str_lt_total, lemma_str_lt_transitive, sorted_keys, str_less, str_lt};
use crate::text::str_eq;

verus! {

/// Values keyed by string, in ascending key order.
pub struct KeyedList<V> {
    entries: Vec<(String, V)>,
}

/// Keys of a sequence of entries.
pub open spec fn pair_keys<V>(es: Seq<(String, V)>) -> Seq<Seq<char>> {
    es.map_values(|e: (String, V)| e.0@)
}

impl<V> KeyedList<V> {
    /// The entries in key order.
    pub closed spec fn entries(&self) -> Seq<(String, V)> {
        self.entries@
    }

    /// The keys in ascending order.
    pub open spec fn keys(&self) -> Seq<Seq<char>> {
        pair_keys(self.entries())
    }

    /// The values in key order.
    pub open spec fn values(&self) -> Seq<V> {
        self.entries().map_values(|e: (String, V)| e.1)
    }

    /// Well-formedness: keys strictly ascending.
    pub open spec fn wf(&self) -> bool {
        sorted_keys(self.keys())
    }

    /// The value for a key, if any.
    pub open spec fn get(&self, k: Seq<char>) -> Option<V> {
        if self.keys().contains(k) {
            Some(self.values()[self.keys().index_of(k)])
        } else {
            None
        }
    }

    /// An empty list.
    pub fn new() -> (r: Self)
        ensures
            r.wf(),
            r.keys().len() == 0,
    {
        KeyedList { entries: Vec::new() }
    }

    /// Insert or replace the value for `key`, keeping key order.
    pub fn insert(&mut self, key: String, value: V)
        requires
            old(self).wf(),
        ensures
            final(self).wf(),
            forall|k: Seq<char>| #[trigger] final(self).get(k) == if k == key@ {
                Some(value)
            } else {
                old(self).get(k)
            },
    {
        let ghost ks = old(self).keys();
        let ghost vs = old(self).values();
        let mut i: usize = 0;
        while i < self.entries.len() && str_less(self.entries[i].0.as_str(), key.as_str())
            invariant
                i <= self.entries@.len(),
                self.entries@ == old(self).entries@,
                ks == pair_keys(old(self).entries@),
                forall|j: int| 0 <= j < i ==> str_lt(#[trigger] ks[j], key@),
            decreases self.entries@.len() - i,
        {
            assert(ks[i as int] == self.entries@[i as int].0@);
            i = i + 1;
        }
        let ghost pos = i as int;
        let ghost kv = key@;
        if i < self.entries.len() && str_eq(self.entries[i].0.as_str(), key.as_str()) {
            self.entries.set(i, (key, value));
            proof {
                assert(self.keys() =~= ks.update(pos, kv));
                assert(self.values() =~= vs.update(pos, value));
                lemma_sorted_unique(ks, pos);
                assert forall|k: Seq<char>| #[trigger] self.get(k) == if k == kv {
                    Some(value)
                } else {
                    old(self).get(k)
                } by {
                    let nk = self.keys();
                    lemma_sorted_unique(nk, pos);
                    if k == kv {
                        assert(nk[pos] == k);
                    } else {
                        if old(self).keys().contains(k) {
                            let j = ks.index_of(k);
                            lemma_sorted_unique(ks, j);
                            assert(nk[j] == k);
                            lemma_sorted_unique(nk, j);
                        }
                        if nk.contains(k) {
                            let j = nk.index_of(k);
                            assert(ks[j] == k);
                        }
                    }
                }
            }
        } else {
            proof {
                if pos < ks.len() {
                    lemma_str_lt_total(ks[pos], kv);
                }
            }
            self.entries.insert(i, (key, value));
            proof {
                let nk = self.keys();
                assert(nk =~= ks.insert(pos, kv));
                assert(self.values() =~= vs.insert(pos, value));
                assert forall|a: int, b: int| 0 <= a < b < nk.len() implies str_lt(#[trigger] nk[a], #[trigger] nk[b]) by {
                    if b < pos {
                        assert(nk[a] == ks[a] && nk[b] == ks[b]);
                    } else if b == pos {
                        assert(nk[a] == ks[a]);
                    } else if a < pos {
                        assert(nk[a] == ks[a] && nk[b] == ks[b - 1]);
                        lemma_str_lt_transitive(ks[a], kv, ks[pos]);
                        if b - 1 > pos {
                            lemma_str_lt_transitive(ks[a], ks[pos], ks[b - 1]);
                        }
                    } else if a == pos {
                        assert(nk[b] == ks[b - 1]);
                        if b - 1 > pos {
                            lemma_str_lt_transitive(kv, ks[pos], ks[b - 1]);
                        }
                    } else {
                        assert(nk[a] == ks[a - 1] && nk[b] == ks[b - 1]);
                    }
                }
                assert forall|k: Seq<char>| #[trigger] self.get(k) == if k == kv {
                    Some(value)
                } else {
                    old(self).get(k)
                } by {
                    lemma_sorted_unique(nk, pos);
                    if k == kv {
                        assert(nk[pos] == k);
                    } else if ks.contains(k) {
                        let j = ks.index_of(k);
                        lemma_sorted_unique(ks, j);
                        if j < pos {
                            assert(nk[j] == k);
                            lemma_sorted_unique(nk, j);
                        } else {
                            assert(nk[j + 1] == k);
                            lemma_sorted_unique(nk, j + 1);
                        }
                    } else {
                        if nk.contains(k) {
                            let j = nk.index_of(k);
                            if j < pos {
                                assert(ks[j] == k);
                            } else if j > pos {
                                assert(ks[j - 1] == k);
                            }
                        }
                    }
                }
            }
        }
    }

    /// The values in key order.
    pub fn into_values(self) -> (r: Vec<V>)
        ensures
            r@ == self.values(),
    {
        let ghost es = self.entries@;
        let mut out: Vec<V> = Vec::new();
        let mut rest = self.entries;
        let n = rest.len();
        let mut i: usize = 0;
        while i < n
            invariant
                i <= n,
                n == es.len(),
                rest@ == es.subrange(i as int, n as int),
                out@ == es.subrange(0, i as int).map_values(|e: (String, V)| e.1),
            decreases n - i,
        {
            let (_, v) = rest.remove(0);
            out.push(v);
            assert(rest@ =~= es.subrange(i as int + 1, n as int));
            i = i + 1;
            assert(out@ =~= es.subrange(0, i as int).map_values(|e: (String, V)| e.1));
        }
        assert(es.subrange(0, n as int) =~= es);
        out
    }

    /// The entries in key order, as pairs.
    pub fn into_pairs(self) -> (r: Vec<(String, V)>)
        ensures
            r@ == self.entries(),
    {
        self.entries
    }
}

} // verus!
