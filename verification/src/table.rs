//! A table from keys to values.
use vstd::prelude::*;

use crate::peer_id::PeerId;
use crate::types::TunnelId;

verus! {

/// A key of a [`Table`]: its view decides which entry it names.
pub trait TableKey: View + Sized {
    /// Whether both keys name the same entry.
    fn same_key(&self, other: &Self) -> (same: bool)
        ensures
            same == (self@ == other@),
    ;
}

/// Pairs of keys and values in which no key occurs twice.
pub struct Table<K: TableKey, V: View> {
    entries: Vec<(K, V)>,
}

/// Whether the entry at `i` has the key `key`.
spec fn has_key<K: TableKey, V: View>(entries: Seq<(K, V)>, i: int, key: K::V) -> bool {
    0 <= i < entries.len() && entries[i].0@ == key
}

/// Whether no key occurs twice.
spec fn distinct<K: TableKey, V: View>(entries: Seq<(K, V)>) -> bool {
    forall|i: int, j: int|
        0 <= i < j < entries.len() ==> (#[trigger] entries[i]).0@ != (#[trigger] entries[j]).0@
}

/// The map from the keys of the entries to their values.
spec fn entries_map<K: TableKey, V: View>(entries: Seq<(K, V)>) -> Map<K::V, V::V> {
    Map::new(
        |key: K::V| exists|i: int| has_key(entries, i, key),
        |key: K::V| entries[choose|i: int| has_key(entries, i, key)].1@,
    )
}

/// Where no key occurs twice, the map holds each entry.
proof fn lemma_entry<K: TableKey, V: View>(entries: Seq<(K, V)>, i: int)
    requires
        distinct(entries),
        0 <= i < entries.len(),
    ensures
        entries_map(entries).dom().contains(entries[i].0@),
        entries_map(entries)[entries[i].0@] == entries[i].1@,
{
    let key = entries[i].0@;
    assert(has_key(entries, i, key));
    let j = choose|j: int| has_key(entries, j, key);
    assert(has_key(entries, j, key));
    if i < j {
        assert(entries[i].0@ != entries[j].0@);
    } else if j < i {
        assert(entries[j].0@ != entries[i].0@);
    }
}

/// A key of the map is the key of some entry.
proof fn lemma_key<K: TableKey, V: View>(entries: Seq<(K, V)>, key: K::V) -> (i: int)
    requires
        entries_map(entries).dom().contains(key),
    ensures
        has_key(entries, i, key),
{
    choose|i: int| has_key(entries, i, key)
}

/// The map from keys to values determines the entries up to their order.
proof fn lemma_same_map<K: TableKey, V: View>(entries: Seq<(K, V)>, map: Map<K::V, V::V>)
    requires
        distinct(entries),
        forall|i: int|
            0 <= i < entries.len() ==> map.dom().contains((#[trigger] entries[i]).0@)
                && map[entries[i].0@] == entries[i].1@,
        forall|key: K::V| #[trigger]
            map.dom().contains(key) ==> exists|i: int| has_key(entries, i, key),
    ensures
        entries_map(entries) == map,
{
    assert forall|key: K::V| #[trigger]
        entries_map(entries).dom().contains(key) implies map.dom().contains(key)
        && entries_map(entries)[key] == map[key] by {
        let i = lemma_key(entries, key);
        lemma_entry(entries, i);
    }
    assert(entries_map(entries) =~= map);
}

/// Pushing an entry with a new key adds it to the map.
proof fn lemma_push<K: TableKey, V: View>(entries: Seq<(K, V)>, entry: (K, V))
    requires
        distinct(entries),
        !entries_map(entries).dom().contains(entry.0@),
    ensures
        distinct(entries.push(entry)),
        entries_map(entries.push(entry)) == entries_map(entries).insert(entry.0@, entry.1@),
{
    let after = entries.push(entry);
    let map = entries_map(entries).insert(entry.0@, entry.1@);
    assert forall|i: int| 0 <= i < entries.len() implies (#[trigger] entries[i]).0@ != entry.0@ by {
        lemma_entry(entries, i);
    }
    assert forall|i: int| 0 <= i < after.len() implies map.dom().contains(
        (#[trigger] after[i]).0@,
    ) && map[after[i].0@] == after[i].1@ by {
        if i < entries.len() {
            lemma_entry(entries, i);
        }
    }
    assert forall|key: K::V| #[trigger] map.dom().contains(key) implies exists|i: int|
        has_key(after, i, key) by {
        if key == entry.0@ {
            assert(has_key(after, entries.len() as int, key));
        } else {
            let i = lemma_key(entries, key);
            assert(has_key(after, i, key));
        }
    }
    lemma_same_map(after, map);
}

/// Putting the last entry in the place of another one removes that one from the map.
proof fn lemma_swap_remove<K: TableKey, V: View>(entries: Seq<(K, V)>, at: int)
    requires
        distinct(entries),
        0 <= at < entries.len(),
    ensures
        distinct(entries.update(at, entries.last()).drop_last()),
        entries_map(entries.update(at, entries.last()).drop_last()) == entries_map(
            entries,
        ).remove(entries[at].0@),
{
    let after = entries.update(at, entries.last()).drop_last();
    let map = entries_map(entries).remove(entries[at].0@);
    let end = entries.len() - 1;
    assert forall|i: int, j: int| 0 <= i < j < after.len() implies (#[trigger] after[i]).0@ != (
    #[trigger] after[j]).0@ by {
        let i_was = if i == at { end } else { i };
        let j_was = if j == at { end } else { j };
        assert(entries[i_was].0@ != entries[j_was].0@);
    }
    assert forall|i: int| 0 <= i < after.len() implies map.dom().contains(
        (#[trigger] after[i]).0@,
    ) && map[after[i].0@] == after[i].1@ by {
        let was = if i == at { end } else { i };
        lemma_entry(entries, was);
        assert(entries[was].0@ != entries[at].0@);
    }
    assert forall|key: K::V| #[trigger] map.dom().contains(key) implies exists|i: int|
        has_key(after, i, key) by {
        let was = lemma_key(entries, key);
        if was == end {
            assert(has_key(after, at, key));
        } else {
            assert(has_key(after, was, key));
        }
    }
    lemma_same_map(after, map);
}

impl<K: TableKey, V: View> View for Table<K, V> {
    type V = Map<K::V, V::V>;

    closed spec fn view(&self) -> Map<K::V, V::V> {
        entries_map(self.entries@)
    }
}

impl<K: TableKey, V: View> Table<K, V> {
    /// No key occurs twice.
    #[verifier::type_invariant]
    spec fn has_distinct_keys(self) -> bool {
        distinct(self.entries@)
    }

    /// An empty table.
    pub fn new() -> (table: Self)
        ensures
            table@ == Map::<K::V, V::V>::empty(),
    {
        let table = Table { entries: Vec::new() };
        assert(table@ =~= Map::<K::V, V::V>::empty());
        table
    }

    /// The place of the entry with the key `key`.
    fn position(&self, key: &K) -> (place: Option<usize>)
        ensures
            match place {
                Some(i) => has_key(self.entries@, i as int, key@),
                None => !self@.dom().contains(key@),
            },
    {
        let mut i: usize = 0;
        while i < self.entries.len()
            invariant
                i <= self.entries@.len(),
                forall|j: int| 0 <= j < i ==> (#[trigger] self.entries@[j]).0@ != key@,
            decreases self.entries@.len() - i,
        {
            if self.entries[i].0.same_key(key) {
                return Some(i);
            }
            i = i + 1;
        }
        None
    }

    /// The value under `key`.
    pub fn get(&self, key: &K) -> (value: Option<&V>)
        ensures
            match value {
                Some(v) => self@.dom().contains(key@) && self@[key@] == v@,
                None => !self@.dom().contains(key@),
            },
    {
        proof {
            use_type_invariant(self);
        }
        match self.position(key) {
            Some(i) => {
                proof {
                    lemma_entry(self.entries@, i as int);
                }
                Some(&self.entries[i].1)
            },
            None => None,
        }
    }

    /// Takes the entry under `key` out of the table.
    pub fn remove(&mut self, key: &K) -> (value: Option<V>)
        ensures
            final(self)@ == old(self)@.remove(key@),
            match value {
                Some(v) => old(self)@.dom().contains(key@) && old(self)@[key@] == v@,
                None => !old(self)@.dom().contains(key@),
            },
    {
        proof {
            use_type_invariant(&*self);
        }
        match self.position(key) {
            Some(i) => {
                proof {
                    lemma_entry(self.entries@, i as int);
                    lemma_swap_remove(self.entries@, i as int);
                }
                let mut entries: Vec<(K, V)> = Vec::new();
                std::mem::swap(&mut entries, &mut self.entries);
                let (_, value) = entries.swap_remove(i);
                self.entries = entries;
                Some(value)
            },
            None => {
                assert(self@.remove(key@) =~= self@);
                None
            },
        }
    }

    /// Puts `value` under `key` and gives back what was there.
    pub fn insert(&mut self, key: K, value: V) -> (replaced: Option<V>)
        ensures
            final(self)@ == old(self)@.insert(key@, value@),
            match replaced {
                Some(v) => old(self)@.dom().contains(key@) && old(self)@[key@] == v@,
                None => !old(self)@.dom().contains(key@),
            },
    {
        let replaced = self.remove(&key);
        proof {
            use_type_invariant(&*self);
            lemma_push(self.entries@, (key, value));
        }
        let mut entries: Vec<(K, V)> = Vec::new();
        std::mem::swap(&mut entries, &mut self.entries);
        entries.push((key, value));
        self.entries = entries;
        assert(self@ =~= old(self)@.insert(key@, value@));
        replaced
    }
}

impl TableKey for TunnelId {
    fn same_key(&self, other: &TunnelId) -> (same: bool) {
        proof {
            crate::types::lemma_tunnel_id_number(*self);
            crate::types::lemma_tunnel_id_number(*other);
        }
        *self == *other
    }
}

impl TableKey for (PeerId, TunnelId) {
    fn same_key(&self, other: &(PeerId, TunnelId)) -> (same: bool) {
        self.0.same_key(&other.0) && self.1.same_key(&other.1)
    }
}

/// The entries of `map` whose key is not of the peer `peer_id`.
pub open spec fn without_peer<T>(map: Map<(Seq<char>, u64), T>, peer_id: Seq<char>) -> Map<
    (Seq<char>, u64),
    T,
> {
    map.restrict(Set::new(|key: (Seq<char>, u64)| key.0 != peer_id))
}

impl<V: View> Table<(PeerId, TunnelId), V> {
    /// Takes all entries of a peer out of the table.
    pub fn remove_peer(&mut self, peer_id: &PeerId)
        ensures
            final(self)@ == without_peer(old(self)@, peer_id@),
    {
        proof {
            use_type_invariant(&*self);
        }
        let mut entries: Vec<((PeerId, TunnelId), V)> = Vec::new();
        std::mem::swap(&mut entries, &mut self.entries);
        let ghost kept = without_peer(old(self)@, peer_id@);
        let mut i: usize = 0;
        while i < entries.len()
            invariant
                i <= entries@.len(),
                distinct(entries@),
                forall|j: int| 0 <= j < i ==> (#[trigger] entries@[j]).0.0@ != peer_id@,
                without_peer(entries_map(entries@), peer_id@) == kept,
            decreases entries@.len() - i,
        {
            if entries[i].0.0.same_key(peer_id) {
                let ghost before = entries_map(entries@);
                proof {
                    lemma_swap_remove(entries@, i as int);
                }
                entries.swap_remove(i);
                assert(without_peer(entries_map(entries@), peer_id@) =~= without_peer(
                    before,
                    peer_id@,
                ));
            } else {
                i = i + 1;
            }
        }
        proof {
            assert forall|key: (Seq<char>, u64)| #[trigger]
                entries_map(entries@).dom().contains(key) implies key.0 != peer_id@ by {
                let j = lemma_key(entries@, key);
                assert(entries@[j].0.0@ != peer_id@);
            }
            assert(entries_map(entries@) =~= kept);
        }
        self.entries = entries;
    }
}

} // verus!
