//! The bank's meta table: a mapping from text keys to text values.

use vstd::prelude::*;
use vstd::string::*;
use crate::db::rows::{decode_meta_pair, meta_pair_of};
use crate::db::value::{table, Cell, SqlValue};

verus! {

/// One key of the meta table with its value.
#[derive(Debug, Clone, PartialEq, Eq)]
pub struct MetaEntry {
    pub key: String,
    pub value: String,
}

/// The mapping that a list of entries stands for, a later entry
/// overriding an earlier one of the same key.
pub open spec fn entries_map(s: Seq<MetaEntry>) -> Map<Seq<char>, Seq<char>>
    decreases s.len(),
{
    if s.len() == 0 {
        Map::empty()
    } else {
        entries_map(s.drop_last()).insert(s.last().key@, s.last().value@)
    }
}

/// No key occurs twice in the list.
pub open spec fn distinct_keys(s: Seq<MetaEntry>) -> bool {
    forall|i: int, j: int| 0 <= i < j < s.len() ==> (#[trigger] s[i]).key@ != (#[trigger] s[j]).key@
}

/// The keys of the mapping are the keys of the list.
pub proof fn lemma_entries_map_keys(s: Seq<MetaEntry>, k: Seq<char>)
    ensures
        entries_map(s).contains_key(k) <==> exists|i: int|
            0 <= i < s.len() && (#[trigger] s[i]).key@ == k,
    decreases s.len(),
{
    if s.len() > 0 {
        let t = s.drop_last();
        lemma_entries_map_keys(t, k);
        if entries_map(s).contains_key(k) {
            if s.last().key@ == k {
                assert(s[s.len() - 1].key@ == k);
            } else {
                let i = choose|i: int| 0 <= i < t.len() && (#[trigger] t[i]).key@ == k;
                assert(s[i].key@ == k);
            }
        }
        if exists|i: int| 0 <= i < s.len() && (#[trigger] s[i]).key@ == k {
            let i = choose|i: int| 0 <= i < s.len() && (#[trigger] s[i]).key@ == k;
            if i < s.len() - 1 {
                assert(t[i].key@ == k);
            }
        }
    }
}

/// Where no key occurs twice, each entry's key is mapped to its value.
pub proof fn lemma_entries_map_value(s: Seq<MetaEntry>, i: int)
    requires
        distinct_keys(s),
        0 <= i < s.len(),
    ensures
        entries_map(s).contains_key(s[i].key@),
        entries_map(s)[s[i].key@] == s[i].value@,
    decreases s.len(),
{
    let t = s.drop_last();
    if i < s.len() - 1 {
        assert(distinct_keys(t)) by {
            assert forall|a: int, b: int| 0 <= a < b < t.len() implies (#[trigger] t[a]).key@ != (
            #[trigger] t[b]).key@ by {
                assert(s[a].key@ != s[b].key@);
            }
        }
        lemma_entries_map_value(t, i);
        assert(s[i].key@ != s[s.len() - 1].key@);
    }
}

/// Where no key occurs twice, the mapping has as many keys as the list
/// has entries.
pub proof fn lemma_entries_map_len(s: Seq<MetaEntry>)
    requires
        distinct_keys(s),
    ensures
        entries_map(s).dom().finite(),
        entries_map(s).len() == s.len(),
    decreases s.len(),
{
    if s.len() > 0 {
        let t = s.drop_last();
        assert(distinct_keys(t)) by {
            assert forall|a: int, b: int| 0 <= a < b < t.len() implies (#[trigger] t[a]).key@ != (
            #[trigger] t[b]).key@ by {
                assert(s[a].key@ != s[b].key@);
            }
        }
        lemma_entries_map_len(t);
        lemma_entries_map_keys(t, s.last().key@);
        if entries_map(t).contains_key(s.last().key@) {
            let i = choose|i: int| 0 <= i < t.len() && (#[trigger] t[i]).key@ == s.last().key@;
            assert(s[i].key@ != s[s.len() - 1].key@);
        }
    }
}

/// Replacing the value of an entry replaces the value of its key.
pub proof fn lemma_entries_map_update(s: Seq<MetaEntry>, i: int, e: MetaEntry)
    requires
        distinct_keys(s),
        0 <= i < s.len(),
        e.key@ == s[i].key@,
    ensures
        distinct_keys(s.update(i, e)),
        entries_map(s.update(i, e)) == entries_map(s).insert(e.key@, e.value@),
    decreases s.len(),
{
    let u = s.update(i, e);
    assert(distinct_keys(u)) by {
        assert forall|a: int, b: int| 0 <= a < b < u.len() implies (#[trigger] u[a]).key@ != (
        #[trigger] u[b]).key@ by {
            assert(s[a].key@ != s[b].key@);
        }
    }
    let t = s.drop_last();
    if i == s.len() - 1 {
        assert(u.drop_last() =~= t);
        assert(entries_map(u) =~= entries_map(s).insert(e.key@, e.value@));
    } else {
        assert(distinct_keys(t)) by {
            assert forall|a: int, b: int| 0 <= a < b < t.len() implies (#[trigger] t[a]).key@ != (
            #[trigger] t[b]).key@ by {
                assert(s[a].key@ != s[b].key@);
            }
        }
        lemma_entries_map_update(t, i, e);
        assert(u.drop_last() =~= t.update(i, e));
        assert(u.last() == s.last());
        assert(s[i].key@ != s[s.len() - 1].key@);
        assert(entries_map(u) =~= entries_map(s).insert(e.key@, e.value@));
    }
}

/// The meta table of a bank. Each key has one value.
#[derive(Debug, PartialEq, Eq)]
pub struct Meta {
    entries: Vec<MetaEntry>,
}

impl View for Meta {
    type V = Map<Seq<char>, Seq<char>>;

    closed spec fn view(&self) -> Map<Seq<char>, Seq<char>> {
        entries_map(self.entries@)
    }
}

impl Meta {
    #[verifier::type_invariant]
    spec fn keys_are_distinct(&self) -> bool {
        distinct_keys(self.entries@)
    }

    /// The table without keys.
    pub fn new() -> (m: Meta)
        ensures
            m@ == Map::<Seq<char>, Seq<char>>::empty(),
    {
        Meta { entries: Vec::new() }
    }

    /// The place of `key` among the entries, if it is there.
    fn position(&self, key: &String) -> (r: Option<usize>)
        ensures
            match r {
                Some(i) => i < self.entries@.len() && self.entries@[i as int].key@ == key@,
                None => forall|i: int|
                    0 <= i < self.entries@.len() ==> (#[trigger] self.entries@[i]).key@ != key@,
            },
    {
        let mut i: usize = 0;
        while i < self.entries.len()
            invariant
                i <= self.entries@.len(),
                forall|k: int| 0 <= k < i ==> (#[trigger] self.entries@[k]).key@ != key@,
            decreases self.entries@.len() - i,
        {
            if self.entries[i].key == *key {
                return Some(i);
            }
            i = i + 1;
        }
        None
    }

    /// Gives `key` the value `value`, whether or not it had one.
    pub fn insert(&mut self, key: String, value: String)
        ensures
            final(self)@ == old(self)@.insert(key@, value@),
    {
        proof {
            use_type_invariant(&*self);
        }
        let entry = MetaEntry { key, value };
        let place = self.position(&entry.key);
        let mut taken = Meta::new();
        std::mem::swap(self, &mut taken);
        let mut entries = taken.entries;
        match place {
            Some(i) => {
                proof {
                    lemma_entries_map_update(entries@, i as int, entry);
                }
                entries.set(i, entry);
            },
            None => {
                let ghost before = entries@;
                proof {
                    lemma_entries_map_keys(before, entry.key@);
                }
                entries.push(entry);
                assert(entries@.drop_last() =~= before);
            },
        }
        *self = Meta { entries };
    }

    /// The value of `key`, if it has one.
    pub fn get(&self, key: &str) -> (r: Option<&String>)
        ensures
            match r {
                Some(v) => self@.contains_key(key@) && self@[key@] == v@,
                None => !self@.contains_key(key@),
            },
    {
        proof {
            use_type_invariant(self);
            lemma_entries_map_keys(self.entries@, key@);
        }
        let wanted = String::from_str(key);
        match self.position(&wanted) {
            Some(i) => {
                proof {
                    lemma_entries_map_value(self.entries@, i as int);
                }
                Some(&self.entries[i].value)
            },
            None => None,
        }
    }

    /// How many keys the table has.
    pub fn len(&self) -> (n: usize)
        ensures
            self@.dom().finite(),
            n == self@.len(),
    {
        proof {
            use_type_invariant(self);
            lemma_entries_map_len(self.entries@);
        }
        self.entries.len()
    }

    /// The keys with their values, each key once, in no particular order.
    pub fn entries(&self) -> (list: &Vec<MetaEntry>)
        ensures
            distinct_keys(list@),
            entries_map(list@) == self@,
    {
        proof {
            use_type_invariant(self);
        }
        &self.entries
    }
}

/// The mapping that the rows of the meta table stand for: each row that
/// is a key and a value gives the key that value, a later row overriding
/// an earlier one; a row of another shape is passed over.
pub open spec fn meta_of(rows: Seq<Seq<Cell>>) -> Map<Seq<char>, Seq<char>>
    decreases rows.len(),
{
    if rows.len() == 0 {
        Map::empty()
    } else {
        let rest = meta_of(rows.drop_last());
        match meta_pair_of(rows.last()) {
            Some((k, v)) => rest.insert(k, v),
            None => rest,
        }
    }
}

/// Turns the rows that the storage returned for the meta table into the
/// table.
pub fn meta_from_rows(rows: &Vec<Vec<SqlValue>>) -> (m: Meta)
    ensures
        m@ == meta_of(table(rows@)),
{
    let mut m = Meta::new();
    let mut i: usize = 0;
    while i < rows.len()
        invariant
            i <= rows.len(),
            m@ == meta_of(table(rows@).subrange(0, i as int)),
        decreases rows.len() - i,
    {
        assert(table(rows@).subrange(0, i + 1).drop_last() =~= table(rows@).subrange(0, i as int));
        match decode_meta_pair(&rows[i]) {
            Some((k, v)) => {
                m.insert(k, v);
            },
            None => {},
        }
        i = i + 1;
    }
    assert(table(rows@).subrange(0, rows@.len() as int) =~= table(rows@));
    m
}

} // verus!
