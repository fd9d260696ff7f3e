use vstd::prelude::*;
use crate::error::StorageError;
use crate::model::{model_del, model_get, model_set, table_of, StoreModel};
use crate::pb::{lemma_pairs_view_contains, pairs_distinct, pairs_view, Kvpair, Value, ValueView};
use crate::storage::{opt_value_view, Storage};

verus! {

/// One stored cell of the in-memory backend, addressed by table name
/// and key.
struct Entry {
    table: String,
    key: String,
    value: Value,
}

/// The address of an entry: the pair (table name, key name).
spec fn entry_addr(e: Entry) -> (Seq<char>, Seq<char>) {
    (e.table@, e.key@)
}

/// The store an entry sequence represents; a later entry for the same
/// address would win, though the backend keeps at most one per address.
spec fn entries_map(s: Seq<Entry>) -> StoreModel
    decreases s.len(),
{
    if s.len() == 0 {
        Map::empty()
    } else {
        entries_map(s.drop_last()).insert(entry_addr(s.last()), s.last().value@)
    }
}

/// No two entries share an address.
spec fn entries_distinct(s: Seq<Entry>) -> bool {
    forall|i: int, j: int| 0 <= i < j < s.len() ==> entry_addr(s[i]) != entry_addr(s[j])
}

/// An address is in the represented store exactly when some entry
/// carries it.
proof fn lemma_entries_map_contains(s: Seq<Entry>, p: (Seq<char>, Seq<char>))
    ensures
        entries_map(s).contains_key(p) <==> exists|i: int|
            0 <= i < s.len() && entry_addr(s[i]) == p,
    decreases s.len(),
{
    if s.len() > 0 {
        let dl = s.drop_last();
        lemma_entries_map_contains(dl, p);
        if p == entry_addr(s.last()) {
            assert(entry_addr(s[s.len() - 1]) == p);
        } else {
            if entries_map(s).contains_key(p) {
                let i = choose|i: int| 0 <= i < dl.len() && entry_addr(dl[i]) == p;
                assert(entry_addr(s[i]) == p);
            }
            if exists|i: int| 0 <= i < s.len() && entry_addr(s[i]) == p {
                let i = choose|i: int| 0 <= i < s.len() && entry_addr(s[i]) == p;
                assert(entry_addr(dl[i]) == p);
            }
        }
    }
}

/// With distinct addresses, the represented store maps each entry's
/// address to that entry's value.
proof fn lemma_entries_map_index(s: Seq<Entry>, i: int)
    requires
        entries_distinct(s),
        0 <= i < s.len(),
    ensures
        entries_map(s).contains_key(entry_addr(s[i])),
        entries_map(s)[entry_addr(s[i])] == s[i].value@,
    decreases s.len(),
{
    if i < s.len() - 1 {
        let dl = s.drop_last();
        assert forall|a: int, b: int| 0 <= a < b < dl.len() implies entry_addr(dl[a])
            != entry_addr(dl[b]) by {
            assert(dl[a] == s[a]);
            assert(dl[b] == s[b]);
        }
        lemma_entries_map_index(dl, i);
        assert(entry_addr(s[i]) != entry_addr(s.last()));
    }
}

/// Appending an entry inserts its address.
proof fn lemma_entries_map_push(s: Seq<Entry>, e: Entry)
    ensures
        entries_map(s.push(e)) == entries_map(s).insert(entry_addr(e), e.value@),
{
    assert(s.push(e).drop_last() =~= s);
    assert(s.push(e).last() == e);
}

/// Removing the entry at `i` removes exactly its address from the
/// represented store, keeps the addresses distinct, and leaves no entry
/// with the removed address behind.
proof fn lemma_entries_map_remove(s: Seq<Entry>, i: int)
    requires
        entries_distinct(s),
        0 <= i < s.len(),
    ensures
        entries_map(s.remove(i)) == entries_map(s).remove(entry_addr(s[i])),
        entries_distinct(s.remove(i)),
        forall|j: int|
            0 <= j < s.remove(i).len() ==> entry_addr(s.remove(i)[j]) != entry_addr(s[i]),
    decreases s.len(),
{
    s.remove_ensures(i);
    let p = entry_addr(s[i]);
    assert forall|j: int| 0 <= j < s.remove(i).len() implies entry_addr(s.remove(i)[j])
        != p by {
        if j < i {
            assert(s.remove(i)[j] == s[j]);
        } else {
            assert(s.remove(i)[j] == s[j + 1]);
        }
    }
    assert forall|a: int, b: int| 0 <= a < b < s.remove(i).len() implies entry_addr(
        s.remove(i)[a],
    ) != entry_addr(s.remove(i)[b]) by {
        if a < i {
            assert(s.remove(i)[a] == s[a]);
        } else {
            assert(s.remove(i)[a] == s[a + 1]);
        }
        if b < i {
            assert(s.remove(i)[b] == s[b]);
        } else {
            assert(s.remove(i)[b] == s[b + 1]);
        }
    }
    let dl = s.drop_last();
    assert forall|a: int, b: int| 0 <= a < b < dl.len() implies entry_addr(dl[a]) != entry_addr(
        dl[b],
    ) by {
        assert(dl[a] == s[a]);
        assert(dl[b] == s[b]);
    }
    if i == s.len() - 1 {
        assert(s.remove(i) =~= dl);
        lemma_entries_map_contains(dl, p);
        assert forall|j: int| 0 <= j < dl.len() implies entry_addr(dl[j]) != p by {
            assert(dl[j] == s[j]);
        }
        assert(!entries_map(dl).contains_key(p));
        assert(entries_map(s).remove(p) =~= entries_map(dl));
    } else {
        lemma_entries_map_remove(dl, i);
        assert(s.remove(i).drop_last() =~= dl.remove(i));
        assert(s.remove(i).last() == s.last());
        assert(entries_map(s.remove(i)) == entries_map(dl.remove(i)).insert(
            entry_addr(s.last()),
            s.last().value@,
        ));
        assert(entry_addr(s.last()) != p);
        assert(entries_map(dl).remove(p).insert(entry_addr(s.last()), s.last().value@)
            =~= entries_map(dl).insert(entry_addr(s.last()), s.last().value@).remove(p));
    }
}

/// The in-memory storage backend: one flat list of entries with
/// distinct addresses. It has no failure mode, so its operations never
/// return an error.
pub struct MemTable {
    entries: Vec<Entry>,
}

impl MemTable {
    /// A fresh, empty store.
    pub fn new() -> (r: Self)
        ensures
            r.wf(),
            r.infallible(),
            r.contents() == Map::<(Seq<char>, Seq<char>), ValueView>::empty(),
    {
        MemTable { entries: Vec::new() }
    }
}

impl Default for MemTable {
    fn default() -> (r: Self)
        ensures
            r.wf(),
            r.infallible(),
            r.contents() == Map::<(Seq<char>, Seq<char>), ValueView>::empty(),
    {
        MemTable::new()
    }
}

impl Storage for MemTable {
    closed spec fn wf(&self) -> bool {
        entries_distinct(self.entries@)
    }

    closed spec fn contents(&self) -> StoreModel {
        entries_map(self.entries@)
    }

    open spec fn infallible(&self) -> bool {
        true
    }

    fn get(&self, table: &String, key: &String) -> (r: Result<Option<Value>, StorageError>) {
        let n = self.entries.len();
        let mut i: usize = 0;
        while i < n
            invariant
                n == self.entries@.len(),
                i <= n,
                entries_distinct(self.entries@),
                forall|j: int| 0 <= j < i ==> entry_addr(self.entries@[j]) != (table@, key@),
            decreases n - i,
        {
            let e = &self.entries[i];
            if e.table == *table && e.key == *key {
                proof {
                    lemma_entries_map_index(self.entries@, i as int);
                }
                return Ok(Some(e.value.clone()));
            }
            i = i + 1;
        }
        proof {
            lemma_entries_map_contains(self.entries@, (table@, key@));
        }
        Ok(None)
    }

    fn get_all(&self, table: &String) -> (r: Result<Vec<Kvpair>, StorageError>) {
        let mut out: Vec<Kvpair> = Vec::new();
        let n = self.entries.len();
        let mut i: usize = 0;
        proof {
            assert(pairs_view(out@) =~= table_of(
                entries_map(self.entries@.take(0)),
                table@,
            ));
        }
        while i < n
            invariant
                n == self.entries@.len(),
                i <= n,
                entries_distinct(self.entries@),
                pairs_view(out@) == table_of(entries_map(self.entries@.take(i as int)), table@),
                pairs_distinct(out@),
            decreases n - i,
        {
            let ghost m = entries_map(self.entries@.take(i as int));
            proof {
                assert(self.entries@.take(i as int + 1).drop_last() =~= self.entries@.take(
                    i as int,
                ));
                assert(self.entries@.take(i as int + 1).last() == self.entries@[i as int]);
            }
            let e = &self.entries[i];
            if e.table == *table {
                let p = Kvpair { key: e.key.clone(), value: e.value.clone() };
                proof {
                    assert forall|a: int| 0 <= a < out@.len() implies out@[a].key@ != e.key@ by {
                        if out@[a].key@ == e.key@ {
                            lemma_pairs_view_contains(out@, a);
                            assert(m.contains_key((table@, e.key@)));
                            lemma_entries_map_contains(
                                self.entries@.take(i as int),
                                (table@, e.key@),
                            );
                            let j = choose|j: int|
                                0 <= j < i && entry_addr(self.entries@.take(i as int)[j]) == (
                                table@,
                                e.key@,
                                );
                            assert(entry_addr(self.entries@[j]) == entry_addr(
                                self.entries@[i as int],
                            ));
                        }
                    }
                    assert(out@.push(p).drop_last() =~= out@);
                    assert(table_of(m.insert((table@, e.key@), e.value@), table@) =~= table_of(
                        m,
                        table@,
                    ).insert(e.key@, e.value@));
                }
                out.push(p);
            } else {
                proof {
                    assert(table_of(m.insert((e.table@, e.key@), e.value@), table@) =~= table_of(
                        m,
                        table@,
                    ));
                }
            }
            i = i + 1;
        }
        proof {
            assert(self.entries@.take(n as int) =~= self.entries@);
        }
        Ok(out)
    }

    fn set(&mut self, table: &String, key: String, value: Value) -> (r: Result<
        Option<Value>,
        StorageError,
    >) {
        let n = self.entries.len();
        let mut i: usize = 0;
        while i < n
            invariant
                *self == *old(self),
                n == self.entries@.len(),
                i <= n,
                entries_distinct(self.entries@),
                forall|j: int| 0 <= j < i ==> entry_addr(self.entries@[j]) != (table@, key@),
            decreases n - i,
        {
            let hit = self.entries[i].table == *table && self.entries[i].key == key;
            if hit {
                proof {
                    lemma_entries_map_index(self.entries@, i as int);
                    lemma_entries_map_remove(self.entries@, i as int);
                }
                let old_entry = self.entries.remove(i);
                let new_entry = Entry { table: table.clone(), key, value };
                proof {
                    lemma_entries_map_push(self.entries@, new_entry);
                    assert(entries_map(old(self).entries@).remove((table@, key@)).insert(
                        (table@, key@),
                        new_entry.value@,
                    ) =~= entries_map(old(self).entries@).insert((table@, key@), new_entry.value@));
                }
                self.entries.push(new_entry);
                return Ok(Some(old_entry.value));
            }
            i = i + 1;
        }
        let new_entry = Entry { table: table.clone(), key, value };
        proof {
            lemma_entries_map_contains(self.entries@, (table@, key@));
            lemma_entries_map_push(self.entries@, new_entry);
        }
        self.entries.push(new_entry);
        Ok(None)
    }

    fn del(&mut self, table: &String, key: &String) -> (r: Result<Option<Value>, StorageError>) {
        let n = self.entries.len();
        let mut i: usize = 0;
        while i < n
            invariant
                *self == *old(self),
                n == self.entries@.len(),
                i <= n,
                entries_distinct(self.entries@),
                forall|j: int| 0 <= j < i ==> entry_addr(self.entries@[j]) != (table@, key@),
            decreases n - i,
        {
            let hit = self.entries[i].table == *table && self.entries[i].key == *key;
            if hit {
                proof {
                    lemma_entries_map_index(self.entries@, i as int);
                    lemma_entries_map_remove(self.entries@, i as int);
                }
                let old_entry = self.entries.remove(i);
                return Ok(Some(old_entry.value));
            }
            i = i + 1;
        }
        proof {
            lemma_entries_map_contains(self.entries@, (table@, key@));
            assert(entries_map(self.entries@).remove((table@, key@)) =~= entries_map(
                self.entries@,
            ));
        }
        Ok(None)
    }
}

} // verus!
