//! Per-item reading-status ledger with last-write-wins merge.
//!
//! One record per item id. An incoming write replaces the stored record
//! only when its timestamp is greater than or equal to the stored one,
//! which makes the merge idempotent under duplicate delivery and immune
//! to stale writes arriving late.

use vstd::prelude::*;

verus! {

/// One reading-status entry: the item it belongs to, its status
/// ("unread", "reading" or "finished"), and the unix-seconds timestamp
/// of the write that produced it.
pub struct ProgressRecord {
    pub book_id: i64,
    pub status: String,
    pub last_updated: i64,
}

impl ProgressRecord {
    /// Field-for-field copy; `String` clones are known to preserve the value.
    pub fn duplicate(&self) -> (r: ProgressRecord)
        ensures
            r == *self,
    {
        ProgressRecord {
            book_id: self.book_id,
            status: self.status.clone(),
            last_updated: self.last_updated,
        }
    }
}

/// True when `s` holds at most one record per item id.
pub open spec fn unique_ids(s: Seq<ProgressRecord>) -> bool {
    forall|i: int, j: int| 0 <= i < j < s.len() ==> s[i].book_id != s[j].book_id
}

/// True when some record in `s` is for item `id`.
pub open spec fn has_record(s: Seq<ProgressRecord>, id: i64) -> bool {
    exists|i: int| 0 <= i < s.len() && s[i].book_id == id
}

/// The ledger after merging `r`: a fresh id is appended; an existing
/// record is replaced exactly when the incoming timestamp is greater
/// than or equal to the stored one (last-write-wins, ties favor the
/// incoming record).
pub open spec fn lww_merged(s: Seq<ProgressRecord>, r: ProgressRecord) -> Seq<ProgressRecord> {
    if has_record(s, r.book_id) {
        let i = choose|i: int| 0 <= i < s.len() && s[i].book_id == r.book_id;
        if r.last_updated >= s[i].last_updated {
            s.update(i, r)
        } else {
            s
        }
    } else {
        s.push(r)
    }
}

/// In-memory reading-status ledger: at most one record per item id.
pub struct ProgressStore {
    records: Vec<ProgressRecord>,
}

impl ProgressStore {
    pub closed spec fn view(&self) -> Seq<ProgressRecord> {
        self.records@
    }

    /// Ledger well-formedness: item ids are unique.
    pub open spec fn wf(&self) -> bool {
        unique_ids(self@)
    }

    /// A ledger that has never been written: no records.
    pub fn new() -> (r: ProgressStore)
        ensures
            r@ == Seq::<ProgressRecord>::empty(),
            r.wf(),
    {
        ProgressStore { records: Vec::new() }
    }

    /// Index of the record for `id`, if one exists.
    fn find_by_id(&self, id: i64) -> (r: Option<usize>)
        ensures
            match r {
                Some(i) => i < self@.len() && self@[i as int].book_id == id,
                None => !has_record(self@, id),
            },
    {
        let n = self.records.len();
        let mut i: usize = 0;
        while i < n
            invariant
                n == self@.len(),
                i <= n,
                forall|j: int| 0 <= j < i ==> self@[j].book_id != id,
            decreases n - i,
        {
            if self.records[i].book_id == id {
                return Some(i);
            }
            i += 1;
        }
        None
    }

    /// Merge one write under the last-write-wins rule.
    pub fn upsert(&mut self, book_id: i64, status: String, timestamp: i64)
        requires
            old(self).wf(),
        ensures
            final(self).wf(),
            final(self)@ == lww_merged(
                old(self)@,
                (ProgressRecord { book_id, status, last_updated: timestamp }),
            ),
    {
        let ghost s = self@;
        let ghost r = ProgressRecord { book_id, status, last_updated: timestamp };
        match self.find_by_id(book_id) {
            Some(i) => {
                proof {
                    assert(has_record(s, book_id));
                    let c = choose|k: int| 0 <= k < s.len() && s[k].book_id == book_id;
                    assert(c == i) by {
                        if c != i {
                            if c < i {
                                assert(s[c].book_id != s[i as int].book_id);
                            } else {
                                assert(s[i as int].book_id != s[c].book_id);
                            }
                        }
                    }
                }
                if timestamp >= self.records[i].last_updated {
                    self.records.set(i, ProgressRecord { book_id, status, last_updated: timestamp });
                    proof {
                        assert(self@ =~= s.update(i as int, r));
                        lemma_lww_preserves_unique(s, r);
                    }
                }
            },
            None => {
                self.records.push(ProgressRecord { book_id, status, last_updated: timestamp });
                proof {
                    assert(self@ =~= s.push(r));
                    lemma_lww_preserves_unique(s, r);
                }
            },
        }
    }

    /// Every record, in stored order; the empty list when nothing was
    /// ever written.
    pub fn read_all(&self) -> (r: Vec<ProgressRecord>)
        ensures
            r@ == self@,
    {
        let mut out: Vec<ProgressRecord> = Vec::new();
        let n = self.records.len();
        let mut i: usize = 0;
        while i < n
            invariant
                n == self@.len(),
                i <= n,
                out@ == self@.take(i as int),
            decreases n - i,
        {
            out.push(self.records[i].duplicate());
            proof {
                assert(out@ =~= self@.take(i + 1 as int));
            }
            i += 1;
        }
        proof {
            assert(self@.take(n as int) =~= self@);
        }
        out
    }
}

/// Merging never creates a second record for an id: uniqueness of ids
/// is preserved by every write.
pub proof fn lemma_lww_preserves_unique(s: Seq<ProgressRecord>, r: ProgressRecord)
    requires
        unique_ids(s),
    ensures
        unique_ids(lww_merged(s, r)),
{
    if has_record(s, r.book_id) {
        let i = choose|i: int| 0 <= i < s.len() && s[i].book_id == r.book_id;
        if r.last_updated >= s[i].last_updated {
            let t = s.update(i, r);
            assert forall|p: int, q: int| 0 <= p < q < t.len() implies t[p].book_id
                != t[q].book_id by {
                assert(s[p].book_id != s[q].book_id);
            }
        }
    } else {
        let t = s.push(r);
        assert forall|p: int, q: int| 0 <= p < q < t.len() implies t[p].book_id != t[q].book_id by {
            if q < s.len() {
                assert(s[p].book_id != s[q].book_id);
            } else {
                assert(!(exists|k: int| 0 <= k < s.len() && s[k].book_id == r.book_id));
                assert(t[p] == s[p]);
            }
        }
    }
}

/// Idempotence of the merge: applying the same write twice leaves the
/// ledger exactly as one application left it.
pub proof fn lemma_lww_idempotent(s: Seq<ProgressRecord>, r: ProgressRecord)
    requires
        unique_ids(s),
    ensures
        lww_merged(lww_merged(s, r), r) == lww_merged(s, r),
{
    lemma_lww_preserves_unique(s, r);
    let s1 = lww_merged(s, r);
    if has_record(s, r.book_id) {
        let i = choose|i: int| 0 <= i < s.len() && s[i].book_id == r.book_id;
        if r.last_updated >= s[i].last_updated {
            assert(s1 == s.update(i, r));
            assert(s1[i] == r);
            assert(has_record(s1, r.book_id));
            let c = choose|k: int| 0 <= k < s1.len() && s1[k].book_id == r.book_id;
            assert(c == i) by {
                if c != i {
                    if c < i {
                        assert(s1[c].book_id != s1[i].book_id);
                    } else {
                        assert(s1[i].book_id != s1[c].book_id);
                    }
                }
            }
            assert(lww_merged(s1, r) =~= s1);
        } else {
            assert(s1 == s);
        }
    } else {
        let i = s.len() as int;
        assert(s1 == s.push(r));
        assert(s1[i] == r);
        assert(has_record(s1, r.book_id));
        let c = choose|k: int| 0 <= k < s1.len() && s1[k].book_id == r.book_id;
        assert(c == i) by {
            if c != i {
                if c < i {
                    assert(s1[c].book_id != s1[i].book_id);
                } else {
                    assert(s1[i].book_id != s1[c].book_id);
                }
            }
        }
        assert(lww_merged(s1, r) =~= s1);
    }
}

/// A stale write is a no-op: when the stored record for the same item
/// carries a strictly newer timestamp, the merge changes nothing.
pub proof fn lemma_lww_stale_write(s: Seq<ProgressRecord>, r: ProgressRecord, i: int)
    requires
        unique_ids(s),
        0 <= i < s.len(),
        s[i].book_id == r.book_id,
        s[i].last_updated > r.last_updated,
    ensures
        lww_merged(s, r) == s,
{
    assert(has_record(s, r.book_id));
    let c = choose|k: int| 0 <= k < s.len() && s[k].book_id == r.book_id;
    assert(c == i) by {
        if c != i {
            if c < i {
                assert(s[c].book_id != s[i].book_id);
            } else {
                assert(s[i].book_id != s[c].book_id);
            }
        }
    }
}

} // verus!
