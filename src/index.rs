//! A batch of decisions keyed by `repository:number:title`, where a later
//! record replaces an earlier one with the same key.

use vstd::prelude::*;

use crate::decimal::{decimal, push_decimal};
use crate::records::FullFCP;

verus! {

/// The key of a decision: `<repository>:<issue number>:<issue title>`.
pub open spec fn key_of(full_fcp: FullFCP) -> Seq<char> {
    full_fcp.issue.repository@ + seq![':'] + decimal(full_fcp.issue.number as nat) + seq![':']
        + full_fcp.issue.title@
}

/// The mapping that indexing the records `s` in order yields: each record is
/// stored under its key, replacing whatever an earlier record left there.
pub open spec fn index_of(s: Seq<FullFCP>) -> Map<Seq<char>, FullFCP>
    decreases s.len(),
{
    if s.len() == 0 {
        Map::empty()
    } else {
        index_of(s.drop_last()).insert(key_of(s.last()), s.last())
    }
}

/// The mapping that a list of key-record pairs stands for, later pairs
/// winning.
pub open spec fn entries_map(s: Seq<(String, FullFCP)>) -> Map<Seq<char>, FullFCP>
    decreases s.len(),
{
    if s.len() == 0 {
        Map::empty()
    } else {
        entries_map(s.drop_last()).insert(s.last().0@, s.last().1)
    }
}

/// No two pairs of `s` have the same key.
pub open spec fn keys_distinct(s: Seq<(String, FullFCP)>) -> bool {
    forall|i: int, j: int| 0 <= i < j < s.len() ==> s[i].0@ != s[j].0@
}

proof fn lemma_entries_map_contents(s: Seq<(String, FullFCP)>)
    requires
        keys_distinct(s),
    ensures
        entries_map(s).dom().finite(),
        entries_map(s).dom().len() == s.len(),
        forall|k: Seq<char>|
            #[trigger] entries_map(s).contains_key(k) <==> exists|i: int|
                0 <= i < s.len() && s[i].0@ == k,
        forall|i: int| 0 <= i < s.len() ==> #[trigger] entries_map(s)[s[i].0@] == s[i].1,
    decreases s.len(),
{
    if s.len() > 0 {
        let p = s.drop_last();
        assert(keys_distinct(p));
        lemma_entries_map_contents(p);
        assert forall|k: Seq<char>| #[trigger] entries_map(s).contains_key(k) <==> exists|i: int|
            0 <= i < s.len() && s[i].0@ == k by {
            if entries_map(p).contains_key(k) {
                let i = choose|i: int| 0 <= i < p.len() && p[i].0@ == k;
                assert(s[i] == p[i]);
            }
            if k == s.last().0@ {
                assert(s[s.len() - 1].0@ == k);
            }
            if exists|i: int| 0 <= i < s.len() && s[i].0@ == k {
                let i = choose|i: int| 0 <= i < s.len() && s[i].0@ == k;
                if i < s.len() - 1 {
                    assert(p[i] == s[i]);
                }
            }
        }
        assert(!entries_map(p).contains_key(s.last().0@)) by {
            if entries_map(p).contains_key(s.last().0@) {
                let i = choose|i: int| 0 <= i < p.len() && p[i].0@ == s.last().0@;
                assert(s[i] == p[i]);
            }
        }
        assert forall|i: int| 0 <= i < s.len() implies #[trigger] entries_map(s)[s[i].0@]
            == s[i].1 by {
            if i < s.len() - 1 {
                assert(s[i] == p[i]);
            }
        }
    }
}

proof fn lemma_entries_map_update(s: Seq<(String, FullFCP)>, i: int, e: (String, FullFCP))
    requires
        keys_distinct(s),
        0 <= i < s.len(),
        s[i].0@ == e.0@,
    ensures
        keys_distinct(s.update(i, e)),
        entries_map(s.update(i, e)) == entries_map(s).insert(e.0@, e.1),
{
    let t = s.update(i, e);
    assert(keys_distinct(t)) by {
        assert forall|a: int, b: int| 0 <= a < b < t.len() implies t[a].0@ != t[b].0@ by {
            assert(t[a].0@ == s[a].0@);
            assert(t[b].0@ == s[b].0@);
        }
    }
    lemma_entries_map_contents(s);
    lemma_entries_map_contents(t);
    let m = entries_map(s).insert(e.0@, e.1);
    assert forall|k: Seq<char>| entries_map(t).contains_key(k) <==> m.contains_key(k) by {
        if entries_map(t).contains_key(k) {
            let j = choose|j: int| 0 <= j < t.len() && t[j].0@ == k;
            assert(s[j].0@ == k);
        }
        if entries_map(s).contains_key(k) {
            let j = choose|j: int| 0 <= j < s.len() && s[j].0@ == k;
            assert(t[j].0@ == k);
        }
        if k == e.0@ {
            assert(t[i].0@ == k);
        }
    }
    assert forall|k: Seq<char>| #[trigger] entries_map(t).contains_key(k) implies entries_map(t)[k]
        == m[k] by {
        let j = choose|j: int| 0 <= j < t.len() && t[j].0@ == k;
        assert(entries_map(t)[t[j].0@] == t[j].1);
        if j != i {
            assert(s[j].0@ == k);
            assert(entries_map(s)[s[j].0@] == s[j].1);
        }
    }
    assert(entries_map(t) =~= m);
}

/// Decisions keyed by `repository:number:title`; its view is the mapping
/// from key characters to record.
pub struct FcpIndex {
    entries: Vec<(String, FullFCP)>,
}

impl View for FcpIndex {
    type V = Map<Seq<char>, FullFCP>;

    closed spec fn view(&self) -> Map<Seq<char>, FullFCP> {
        entries_map(self.entries@)
    }
}

impl FcpIndex {
    /// Each key is stored at most once.
    pub closed spec fn wf(&self) -> bool {
        keys_distinct(self.entries@)
    }

    /// An index with no entries.
    pub fn new() -> (r: FcpIndex)
        ensures
            r.wf(),
            r@ == Map::<Seq<char>, FullFCP>::empty(),
    {
        FcpIndex { entries: Vec::new() }
    }

    /// Stores `record` under `key`, replacing what was stored there.
    pub fn insert(&mut self, key: String, record: FullFCP)
        requires
            old(self).wf(),
        ensures
            final(self).wf(),
            final(self)@ == old(self)@.insert(key@, record),
    {
        let n = self.entries.len();
        let mut i: usize = 0;
        while i < n
            invariant
                self.entries@ == old(self).entries@,
                n == self.entries.len(),
                i <= n,
                keys_distinct(self.entries@),
                forall|j: int| 0 <= j < i ==> self.entries@[j].0@ != key@,
            decreases n - i,
        {
            if self.entries[i].0 == key {
                proof {
                    lemma_entries_map_update(self.entries@, i as int, (key, record));
                }
                self.entries.set(i, (key, record));
                return;
            }
            i = i + 1;
        }
        let ghost prev = self.entries@;
        proof {
            lemma_entries_map_contents(prev);
        }
        self.entries.push((key, record));
        proof {
            assert(self.entries@.drop_last() =~= prev);
            assert(keys_distinct(self.entries@)) by {
                assert forall|a: int, b: int| 0 <= a < b < self.entries@.len() implies
                    self.entries@[a].0@ != self.entries@[b].0@ by {
                    if b == prev.len() {
                        assert(self.entries@[a] == prev[a]);
                    } else {
                        assert(self.entries@[a] == prev[a]);
                        assert(self.entries@[b] == prev[b]);
                    }
                }
            }
        }
    }

    /// The number of distinct keys stored.
    pub fn len(&self) -> (r: usize)
        requires
            self.wf(),
        ensures
            r == self@.len(),
    {
        proof {
            lemma_entries_map_contents(self.entries@);
        }
        self.entries.len()
    }

    /// The record stored under `key`, if any.
    pub fn get(&self, key: &String) -> (r: Option<&FullFCP>)
        requires
            self.wf(),
        ensures
            match r {
                Some(v) => self@.contains_key(key@) && *v == self@[key@],
                None => !self@.contains_key(key@),
            },
    {
        let n = self.entries.len();
        let mut i: usize = 0;
        while i < n
            invariant
                self.wf(),
                n == self.entries.len(),
                i <= n,
                forall|j: int| 0 <= j < i ==> self.entries@[j].0@ != key@,
            decreases n - i,
        {
            if self.entries[i].0 == *key {
                proof {
                    lemma_entries_map_contents(self.entries@);
                    assert(entries_map(self.entries@)[self.entries@[i as int].0@]
                        == self.entries@[i as int].1);
                }
                return Some(&self.entries[i].1);
            }
            i = i + 1;
        }
        proof {
            lemma_entries_map_contents(self.entries@);
        }
        None
    }

    /// The stored key-record pairs, each key once.
    pub fn into_entries(self) -> (r: Vec<(String, FullFCP)>)
        requires
            self.wf(),
        ensures
            keys_distinct(r@),
            entries_map(r@) == self@,
            r.len() == self@.len(),
    {
        proof {
            lemma_entries_map_contents(self.entries@);
        }
        self.entries
    }
}

/// Builds the key of `full_fcp`: `<repository>:<issue number>:<issue title>`.
pub fn fcp_key(full_fcp: &FullFCP) -> (r: String)
    ensures
        r@ == key_of(*full_fcp),
{
    let colon = ":";
    proof {
        reveal_strlit(":");
        assert(colon@ =~= seq![':']);
    }
    let mut key = full_fcp.issue.repository.clone();
    key.append(colon);
    push_decimal(&mut key, full_fcp.issue.number as u64);
    key.append(colon);
    key.append(full_fcp.issue.title.as_str());
    assert(key@ =~= key_of(*full_fcp));
    key
}

/// Indexes `fcps` in order by their keys; where two records share a key,
/// the later one is kept.
pub fn index_fcps(fcps: Vec<FullFCP>) -> (r: FcpIndex)
    ensures
        r.wf(),
        r@ == index_of(fcps@),
{
    let ghost all = fcps@;
    let mut index = FcpIndex::new();
    for full_fcp in it: fcps.into_iter()
        invariant
            it.seq() == all,
            index.wf(),
            index@ == index_of(all.take(it.index() as int)),
    {
        let ghost i = it.index() as int;
        let key = fcp_key(&full_fcp);
        index.insert(key, full_fcp);
        proof {
            assert(all.take(i + 1).drop_last() =~= all.take(i));
        }
    }
    assert(all.take(all.len() as int) =~= all);
    index
}

/// The distinct keys of the records `s`.
pub open spec fn keys_of(s: Seq<FullFCP>) -> Set<Seq<char>> {
    Set::new(|k: Seq<char>| exists|i: int| 0 <= i < s.len() && key_of(s[i]) == k)
}

/// Indexing a batch keeps one entry per distinct key, so the index is as
/// large as the number of distinct keys; and under each key it holds the
/// last record of the batch with that key.
pub proof fn law_index_last_write_wins(s: Seq<FullFCP>)
    ensures
        index_of(s).dom() == keys_of(s),
        keys_of(s).finite(),
        index_of(s).len() == keys_of(s).len(),
        forall|j: int|
            0 <= j < s.len() && (forall|l: int| j < l < s.len() ==> key_of(s[l]) != key_of(s[j]))
                ==> #[trigger] index_of(s)[key_of(s[j])] == s[j],
    decreases s.len(),
{
    if s.len() > 0 {
        let p = s.drop_last();
        law_index_last_write_wins(p);
        assert forall|k: Seq<char>| index_of(s).dom().contains(k) <==> keys_of(s).contains(k) by {
            if keys_of(p).contains(k) {
                let i = choose|i: int| 0 <= i < p.len() && key_of(p[i]) == k;
                assert(s[i] == p[i]);
            }
            if k == key_of(s.last()) {
                assert(key_of(s[s.len() - 1]) == k);
            }
            if keys_of(s).contains(k) {
                let i = choose|i: int| 0 <= i < s.len() && key_of(s[i]) == k;
                if i < s.len() - 1 {
                    assert(p[i] == s[i]);
                }
            }
        }
        assert(index_of(s).dom() =~= keys_of(s));
        assert forall|j: int|
            0 <= j < s.len() && (forall|l: int| j < l < s.len() ==> key_of(s[l]) != key_of(s[j]))
                implies #[trigger] index_of(s)[key_of(s[j])] == s[j] by {
            if j < s.len() - 1 {
                assert(key_of(s[s.len() - 1]) != key_of(s[j]));
                assert(p[j] == s[j]);
                assert forall|l: int| j < l < p.len() implies key_of(p[l]) != key_of(p[j]) by {
                    assert(p[l] == s[l]);
                }
            }
        }
    } else {
        assert(keys_of(s) =~= Set::empty());
        assert(index_of(s).dom() =~= Set::empty());
    }
}

} // verus!
