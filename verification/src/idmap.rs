//! The identifier map: backup-local identifiers to platform identifiers.
//!
//! A restore mints a fresh platform identifier for every entity it creates and
//! has to find it again when a later entity refers to the earlier one by its
//! backup-local name. The map is scoped to one restore and never shared.

use vstd::prelude::*;
use vstd::string::*;

verus! {

/// One entry of an [`IdMap`].
pub struct IdEntry {
    /// The identifier the entity had inside the backup.
    pub local: String,
    /// The identifier it has on this platform.
    pub id: u128,
}

/// The mapping that a sequence of entries stands for; a later entry wins.
pub open spec fn map_of(entries: Seq<IdEntry>) -> Map<Seq<char>, u128>
    decreases entries.len(),
{
    if entries.len() == 0 {
        Map::empty()
    } else {
        map_of(entries.drop_last()).insert(entries.last().local@, entries.last().id)
    }
}

/// No two entries share a backup-local identifier.
pub open spec fn distinct_keys(entries: Seq<IdEntry>) -> bool {
    forall|i: int, j: int|
        0 <= i < j < entries.len() ==> (#[trigger] entries[i]).local@ != (#[trigger] entries[j]).local@
}

/// A key is mapped exactly when some entry carries it.
pub proof fn lemma_map_of_domain(entries: Seq<IdEntry>, key: Seq<char>)
    ensures
        map_of(entries).contains_key(key) <==> exists|i: int|
            0 <= i < entries.len() && (#[trigger] entries[i]).local@ == key,
    decreases entries.len(),
{
    if entries.len() > 0 {
        let prefix = entries.drop_last();
        lemma_map_of_domain(prefix, key);
        if map_of(entries).contains_key(key) {
            if entries.last().local@ == key {
                assert(entries[entries.len() - 1].local@ == key);
            } else {
                let i = choose|i: int| 0 <= i < prefix.len() && (#[trigger] prefix[i]).local@ == key;
                assert(entries[i].local@ == key);
            }
        }
        if exists|i: int| 0 <= i < entries.len() && (#[trigger] entries[i]).local@ == key {
            let i = choose|i: int| 0 <= i < entries.len() && (#[trigger] entries[i]).local@ == key;
            if i < entries.len() - 1 {
                assert(prefix[i].local@ == key);
            }
        }
    }
}

/// With distinct keys, an entry's key is mapped to that entry's identifier.
pub proof fn lemma_map_of_entry(entries: Seq<IdEntry>, i: int)
    requires
        distinct_keys(entries),
        0 <= i < entries.len(),
    ensures
        map_of(entries).contains_key(entries[i].local@),
        map_of(entries)[entries[i].local@] == entries[i].id,
    decreases entries.len(),
{
    let prefix = entries.drop_last();
    if i < entries.len() - 1 {
        assert(distinct_keys(prefix)) by {
            assert forall|a: int, b: int| 0 <= a < b < prefix.len() implies (#[trigger] prefix[a]).local@
                != (#[trigger] prefix[b]).local@ by {
                assert(entries[a].local@ != entries[b].local@);
            }
        }
        lemma_map_of_entry(prefix, i);
        assert(prefix[i] == entries[i]);
        assert(entries[i].local@ != entries[entries.len() - 1].local@);
    }
}

/// With distinct keys, the mapping has as many keys as there are entries.
pub proof fn lemma_map_of_len(entries: Seq<IdEntry>)
    requires
        distinct_keys(entries),
    ensures
        map_of(entries).dom().finite(),
        map_of(entries).dom().len() == entries.len(),
    decreases entries.len(),
{
    if entries.len() > 0 {
        let prefix = entries.drop_last();
        assert(distinct_keys(prefix)) by {
            assert forall|a: int, b: int| 0 <= a < b < prefix.len() implies (#[trigger] prefix[a]).local@
                != (#[trigger] prefix[b]).local@ by {
                assert(entries[a].local@ != entries[b].local@);
            }
        }
        lemma_map_of_len(prefix);
        let key = entries.last().local@;
        lemma_map_of_domain(prefix, key);
        if map_of(prefix).contains_key(key) {
            let i = choose|i: int| 0 <= i < prefix.len() && (#[trigger] prefix[i]).local@ == key;
            assert(entries[i].local@ != entries[entries.len() - 1].local@);
        }
        assert(map_of(entries).dom() =~= map_of(prefix).dom().insert(key));
    } else {
        assert(map_of(entries).dom() =~= Set::<Seq<char>>::empty());
    }
}

/// Replacing the identifier of an entry is an insertion under its key.
proof fn lemma_map_of_update(entries: Seq<IdEntry>, i: int, e: IdEntry)
    requires
        distinct_keys(entries),
        0 <= i < entries.len(),
        e.local@ == entries[i].local@,
    ensures
        map_of(entries.update(i, e)) == map_of(entries).insert(e.local@, e.id),
        distinct_keys(entries.update(i, e)),
    decreases entries.len(),
{
    let updated = entries.update(i, e);
    let prefix = entries.drop_last();
    assert(distinct_keys(updated)) by {
        assert forall|a: int, b: int| 0 <= a < b < updated.len() implies (#[trigger] updated[a]).local@
            != (#[trigger] updated[b]).local@ by {
            assert(entries[a].local@ != entries[b].local@);
        }
    }
    if i == entries.len() - 1 {
        assert(updated.drop_last() =~= prefix);
        assert(map_of(updated) =~= map_of(entries).insert(e.local@, e.id));
    } else {
        assert(distinct_keys(prefix)) by {
            assert forall|a: int, b: int| 0 <= a < b < prefix.len() implies (#[trigger] prefix[a]).local@
                != (#[trigger] prefix[b]).local@ by {
                assert(entries[a].local@ != entries[b].local@);
            }
        }
        assert(prefix[i] == entries[i]);
        lemma_map_of_update(prefix, i, e);
        assert(updated.drop_last() =~= prefix.update(i, e));
        assert(updated.last() == entries.last());
        assert(entries[i].local@ != entries[entries.len() - 1].local@);
        assert(map_of(updated) =~= map_of(entries).insert(e.local@, e.id));
    }
}

/// A mapping from backup-local identifiers to platform identifiers.
pub struct IdMap {
    entries: Vec<IdEntry>,
}

impl View for IdMap {
    type V = Map<Seq<char>, u128>;

    closed spec fn view(&self) -> Map<Seq<char>, u128> {
        map_of(self.entries@)
    }
}

impl IdMap {
    /// The entries are kept free of duplicate keys.
    #[verifier::type_invariant]
    closed spec fn inv(&self) -> bool {
        distinct_keys(self.entries@)
    }

    /// The empty map.
    pub fn new() -> (m: IdMap)
        ensures
            m@ == Map::<Seq<char>, u128>::empty(),
    {
        IdMap { entries: Vec::new() }
    }

    /// The position of the entry with the given key, if there is one.
    fn position(&self, key: &String) -> (r: Option<usize>)
        ensures
            match r {
                Some(i) => i < self.entries@.len() && self.entries@[i as int].local@ == key@,
                None => forall|j: int|
                    0 <= j < self.entries@.len() ==> (#[trigger] self.entries@[j]).local@ != key@,
            },
    {
        let mut i: usize = 0;
        while i < self.entries.len()
            invariant
                i <= self.entries@.len(),
                forall|j: int| 0 <= j < i ==> (#[trigger] self.entries@[j]).local@ != key@,
            decreases self.entries@.len() - i,
        {
            if self.entries[i].local == *key {
                return Some(i);
            }
            i += 1;
        }
        None
    }

    /// The platform identifier recorded for `key`, if any.
    pub fn get(&self, key: &String) -> (r: Option<u128>)
        ensures
            r == if self@.contains_key(key@) {
                Some(self@[key@])
            } else {
                None
            },
    {
        proof {
            use_type_invariant(self);
            lemma_map_of_domain(self.entries@, key@);
        }
        match self.position(key) {
            Some(i) => {
                proof {
                    lemma_map_of_entry(self.entries@, i as int);
                }
                Some(self.entries[i].id)
            },
            None => None,
        }
    }

    /// A backup-local identifier that `id` is recorded for, if there is one.
    pub fn local_of(&self, id: u128) -> (r: Option<String>)
        ensures
            match r {
                Some(key) => self@.contains_key(key@) && self@[key@] == id,
                None => forall|key: Seq<char>| self@.contains_key(key) ==> self@[key] != id,
            },
    {
        proof {
            use_type_invariant(self);
        }
        let mut i: usize = 0;
        while i < self.entries.len()
            invariant
                i <= self.entries@.len(),
                distinct_keys(self.entries@),
                forall|j: int| 0 <= j < i ==> (#[trigger] self.entries@[j]).id != id,
            decreases self.entries@.len() - i,
        {
            if self.entries[i].id == id {
                proof {
                    lemma_map_of_entry(self.entries@, i as int);
                }
                return Some(self.entries[i].local.clone());
            }
            i += 1;
        }
        proof {
            assert forall|key: Seq<char>| self@.contains_key(key) implies self@[key] != id by {
                lemma_map_of_domain(self.entries@, key);
                let j = choose|j: int|
                    0 <= j < self.entries@.len() && (#[trigger] self.entries@[j]).local@ == key;
                lemma_map_of_entry(self.entries@, j);
            }
        }
        None
    }

    /// Whether `key` has a platform identifier.
    pub fn contains(&self, key: &String) -> (r: bool)
        ensures
            r == self@.contains_key(key@),
    {
        self.get(key).is_some()
    }

    /// Records `id` for `key`, replacing what was recorded before.
    pub fn insert(&mut self, key: String, id: u128)
        ensures
            final(self)@ == old(self)@.insert(key@, id),
    {
        proof {
            use_type_invariant(&*self);
        }
        let found = self.position(&key);
        let mut taken = IdMap { entries: Vec::new() };
        core::mem::swap(self, &mut taken);
        let mut entries = taken.entries;
        let ghost before = entries@;
        let entry = IdEntry { local: key, id };
        match found {
            Some(i) => {
                proof {
                    lemma_map_of_update(before, i as int, entry);
                }
                entries.set(i, entry);
            },
            None => {
                entries.push(entry);
                proof {
                    let after = entries@;
                    assert(after.drop_last() =~= before);
                    assert forall|a: int, b: int| 0 <= a < b < after.len() implies (#[trigger] after[a]).local@
                        != (#[trigger] after[b]).local@ by {
                        if b < before.len() {
                            assert(before[a].local@ != before[b].local@);
                        } else {
                            assert(before[a].local@ != key@);
                        }
                    }
                }
            },
        }
        *self = IdMap { entries };
    }

    /// The number of keys in the map.
    pub fn len(&self) -> (n: usize)
        ensures
            self@.dom().finite(),
            n == self@.dom().len(),
    {
        proof {
            use_type_invariant(self);
            lemma_map_of_len(self.entries@);
        }
        self.entries.len()
    }

    /// Whether the map has no key.
    pub fn is_empty(&self) -> (r: bool)
        ensures
            r == (self@ == Map::<Seq<char>, u128>::empty()),
    {
        proof {
            use_type_invariant(self);
            lemma_map_of_len(self.entries@);
            if self.entries@.len() == 0 {
                assert(self@ =~= Map::<Seq<char>, u128>::empty());
            } else {
                lemma_map_of_entry(self.entries@, 0);
            }
        }
        self.entries.len() == 0
    }

    /// A map with the same keys and identifiers.
    pub fn duplicate(&self) -> (m: IdMap)
        ensures
            m@ == self@,
    {
        proof {
            use_type_invariant(self);
        }
        let mut entries: Vec<IdEntry> = Vec::new();
        let mut i: usize = 0;
        while i < self.entries.len()
            invariant
                i <= self.entries@.len(),
                entries@ == self.entries@.take(i as int),
            decreases self.entries@.len() - i,
        {
            entries.push(IdEntry { local: self.entries[i].local.clone(), id: self.entries[i].id });
            assert(entries@ =~= self.entries@.take(i + 1));
            i += 1;
        }
        assert(entries@ =~= self.entries@);
        IdMap { entries }
    }

    /// The pairs of the map, each key once, in the order of first insertion.
    pub fn pairs(&self) -> (r: Vec<(String, u128)>)
        ensures
            r@.len() == self@.dom().len(),
            forall|i: int|
                0 <= i < r@.len() ==> self@.contains_key((#[trigger] r@[i]).0@) && self@[r@[i].0@]
                    == r@[i].1,
            forall|i: int, j: int|
                0 <= i < j < r@.len() ==> (#[trigger] r@[i]).0@ != (#[trigger] r@[j]).0@,
    {
        proof {
            use_type_invariant(self);
            lemma_map_of_len(self.entries@);
        }
        let mut out: Vec<(String, u128)> = Vec::new();
        let mut i: usize = 0;
        while i < self.entries.len()
            invariant
                i <= self.entries@.len(),
                out@.len() == i,
                distinct_keys(self.entries@),
                forall|j: int|
                    0 <= j < i ==> (#[trigger] out@[j]).0@ == self.entries@[j].local@ && out@[j].1
                        == self.entries@[j].id,
            decreases self.entries@.len() - i,
        {
            out.push((self.entries[i].local.clone(), self.entries[i].id));
            i += 1;
        }
        proof {
            assert forall|j: int| 0 <= j < out@.len() implies self@.contains_key((#[trigger] out@[j]).0@)
                && self@[out@[j].0@] == out@[j].1 by {
                lemma_map_of_entry(self.entries@, j);
            }
            assert forall|a: int, b: int| 0 <= a < b < out@.len() implies (#[trigger] out@[a]).0@ != (
            #[trigger] out@[b]).0@ by {
                assert(self.entries@[a].local@ != self.entries@[b].local@);
            }
        }
        out
    }
}

/// The three mappings of one restore: categories, roles and channels.
pub struct IdentifierMap {
    /// Backup categories that were created.
    pub categories: IdMap,
    /// Backup roles that were created or matched to the default role.
    pub roles: IdMap,
    /// Backup channels that were created.
    pub channels: IdMap,
}

impl IdentifierMap {
    /// Three empty mappings.
    pub fn new() -> (m: IdentifierMap)
        ensures
            m.categories@ == Map::<Seq<char>, u128>::empty(),
            m.roles@ == Map::<Seq<char>, u128>::empty(),
            m.channels@ == Map::<Seq<char>, u128>::empty(),
    {
        IdentifierMap { categories: IdMap::new(), roles: IdMap::new(), channels: IdMap::new() }
    }
}

} // verus!
