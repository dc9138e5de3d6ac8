//! The offline snapshot: descriptions saved by exact query text and backend
//! tag, read back when no database is reachable.

use vstd::prelude::*;
use crate::describe::Description;
use crate::text::same_text;

verus! {

/// One saved description.
pub struct CacheEntry {
    /// The exact query text the description belongs to.
    pub query: String,
    /// The tag of the backend that described it.
    pub backend_tag: String,
    pub description: Description,
}

/// All entries saved for one build. A later entry for the same query text
/// replaces an earlier one; nothing is ever matched but by exact text.
pub struct OfflineData {
    pub entries: Vec<CacheEntry>,
}

#[derive(Debug, PartialEq, Eq)]
pub enum CacheError {
    /// No entry has this exact query text; the snapshot must be regenerated.
    NotFound,
    /// An entry exists, but for a backend this build does not include (its tag).
    BackendNotEnabled(String),
}

/// The entries by query text, later entries replacing earlier ones.
pub open spec fn snapshot(entries: Seq<CacheEntry>) -> Map<Seq<char>, CacheEntry>
    decreases entries.len(),
{
    if entries.len() == 0 {
        Map::empty()
    } else {
        snapshot(entries.drop_last()).insert(entries.last().query@, entries.last())
    }
}

/// What reading text `q` from the entries gives.
pub open spec fn load_spec(entries: Seq<CacheEntry>, q: Seq<char>) -> Option<CacheEntry> {
    if snapshot(entries).contains_key(q) {
        Some(snapshot(entries)[q])
    } else {
        None
    }
}

proof fn lemma_snapshot_unchanged_by_suffix(s: Seq<CacheEntry>, i: int, q: Seq<char>)
    requires
        0 <= i <= s.len(),
        forall|k: int| i <= k < s.len() ==> s[k].query@ != q,
    ensures
        load_spec(s, q) == load_spec(s.subrange(0, i), q),
    decreases s.len() - i,
{
    if i < s.len() {
        assert(s.drop_last().subrange(0, i) =~= s.subrange(0, i));
        lemma_snapshot_unchanged_by_suffix(s.drop_last(), i, q);
    } else {
        assert(s.subrange(0, i) =~= s);
    }
}

impl OfflineData {
    /// An empty snapshot.
    pub fn new() -> (r: OfflineData)
        ensures
            r.entries@.len() == 0,
    {
        OfflineData { entries: Vec::new() }
    }

    /// Saves the description of `query` made by the backend tagged `backend_tag`.
    pub fn save(&mut self, query: String, backend_tag: String, description: Description)
        ensures
            final(self).entries@ == old(self).entries@.push(
                CacheEntry { query, backend_tag, description },
            ),
            snapshot(final(self).entries@) == snapshot(old(self).entries@).insert(
                query@,
                CacheEntry { query, backend_tag, description },
            ),
    {
        let ghost before = self.entries@;
        self.entries.push(CacheEntry { query, backend_tag, description });
        proof {
            assert(self.entries@.drop_last() =~= before);
        }
    }

    /// Reads the entry for the exact text `query`.
    pub fn load(&self, query: &str) -> (r: Result<&CacheEntry, CacheError>)
        ensures
            match load_spec(self.entries@, query@) {
                Some(e) => r is Ok && *r->Ok_0 == e,
                None => r == Err::<&CacheEntry, CacheError>(CacheError::NotFound),
            },
    {
        let mut i: usize = self.entries.len();
        while i > 0
            invariant
                i <= self.entries@.len(),
                forall|k: int| i <= k < self.entries@.len() ==> self.entries@[k].query@ != query@,
            decreases i,
        {
            if same_text(self.entries[i - 1].query.as_str(), query) {
                proof {
                    lemma_snapshot_unchanged_by_suffix(self.entries@, i as int, query@);
                    assert(self.entries@.subrange(0, i as int).drop_last() =~= self.entries@.subrange(
                        0,
                        i - 1,
                    ));
                }
                return Ok(&self.entries[i - 1]);
            }
            i = i - 1;
        }
        proof {
            lemma_snapshot_unchanged_by_suffix(self.entries@, 0, query@);
        }
        Err(CacheError::NotFound)
    }
}

/// Reading back by the exact text just saved gives the saved entry, whatever
/// the snapshot held before.
pub proof fn lemma_save_then_load(entries: Seq<CacheEntry>, e: CacheEntry)
    ensures
        load_spec(entries.push(e), e.query@) == Some(e),
{
    assert(entries.push(e).drop_last() =~= entries);
}

/// A snapshot holding only the entry for text `s` finds nothing for any other
/// text: there is no near match.
pub proof fn lemma_load_other_text(e: CacheEntry, other: Seq<char>)
    requires
        other != e.query@,
    ensures
        load_spec(seq![e], other) is None,
{
    let s = seq![e];
    assert(s.len() == 1);
    assert(s.drop_last() =~= Seq::<CacheEntry>::empty());
    assert(snapshot(s.drop_last()) == Map::<Seq<char>, CacheEntry>::empty());
    assert(s.last() == e);
    assert(!snapshot(s).contains_key(other));
}

/// Saving under one text leaves what every other text reads unchanged.
pub proof fn lemma_save_keeps_others(entries: Seq<CacheEntry>, e: CacheEntry, other: Seq<char>)
    requires
        other != e.query@,
    ensures
        load_spec(entries.push(e), other) == load_spec(entries, other),
{
    assert(entries.push(e).drop_last() =~= entries);
}

} // verus!
