//! An insertion-ordered map from identifiers to values.
//!
//! The identifiers live in an `indexmap::IndexMap`, which remembers the order
//! in which they came and finds each of them again in constant time. Each
//! identifier maps to the slot of its value in a vector that this module
//! owns, so that everything said about the values is proved here.

use indexmap::IndexMap;
use vstd::prelude::*;

verus! {

/// `indexmap::IndexMap`, of which nothing is known here but what the
/// wrappers below state.
#[verifier::external_type_specification]
#[verifier::external_body]
#[verifier::reject_recursive_types(K)]
#[verifier::reject_recursive_types(V)]
#[verifier::reject_recursive_types(S)]
pub struct ExIndexMap<K, V, S>(IndexMap<K, V, S>);

/// The key-and-slot pairs that a slot table holds, first inserted first.
pub uninterp spec fn slot_entries(table: IndexMap<String, usize>) -> Seq<(Seq<char>, usize)>;

/// `IndexMap::new`: the new table holds nothing.
#[verifier::external_body]
fn slots_new() -> (table: IndexMap<String, usize>)
    ensures
        slot_entries(table) == Seq::<(Seq<char>, usize)>::empty(),
{
    IndexMap::new()
}

/// `IndexMap::get`: the slot stored under `key` where the table holds that
/// key, and nothing where no entry has it.
#[verifier::external_body]
fn slots_get(table: &IndexMap<String, usize>, key: &str) -> (slot: Option<usize>)
    ensures
        match slot {
            Some(s) => exists|i: int|
                0 <= i < slot_entries(*table).len() && #[trigger] slot_entries(*table)[i] == (key@, s),
            None => forall|i: int|
                0 <= i < slot_entries(*table).len() ==> (#[trigger] slot_entries(*table)[i]).0 != key@,
        },
{
    table.get(key).copied()
}

/// `IndexMap::insert`: where an entry has the key it stays in its place and
/// takes the new slot, and the slot it had is returned; otherwise the pair
/// becomes the last entry and nothing is returned.
#[verifier::external_body]
fn slots_insert(table: &mut IndexMap<String, usize>, key: String, slot: usize) -> (previous: Option<
    usize,
>)
    ensures
        match previous {
            Some(p) => exists|i: int|
                0 <= i < slot_entries(*old(table)).len() && #[trigger] slot_entries(*old(table))[i] == (
                    key@,
                    p,
                ) && slot_entries(*final(table)) == slot_entries(*old(table)).update(i, (key@, slot)),
            None => {
                &&& forall|i: int|
                    0 <= i < slot_entries(*old(table)).len() ==> (#[trigger] slot_entries(
                        *old(table),
                    )[i]).0 != key@
                &&& slot_entries(*final(table)) == slot_entries(*old(table)).push((key@, slot))
            },
        },
{
    table.insert(key, slot)
}

/// `IndexMap::get_index`: the key of the entry at `index` in insertion order,
/// and nothing past the last entry.
#[verifier::external_body]
fn slots_key_at(table: &IndexMap<String, usize>, index: usize) -> (key: Option<&String>)
    ensures
        index < slot_entries(*table).len() ==> key.is_some() && key.unwrap()@ == slot_entries(
            *table,
        )[index as int].0,
        index >= slot_entries(*table).len() ==> key.is_none(),
{
    table.get_index(index).map(|entry| entry.0)
}

/// Where `key` stands among `keys`, if it does.
pub open spec fn position_of(keys: Seq<Seq<char>>, key: Seq<char>) -> Option<int> {
    if keys.contains(key) {
        Some(keys.index_of(key))
    } else {
        None
    }
}

/// A map that keeps its entries in the order in which their keys were first
/// inserted. No key occurs twice.
pub struct OrderedMap<V> {
    slots: IndexMap<String, usize>,
    values: Vec<V>,
}

impl<V> OrderedMap<V> {
    #[verifier::type_invariant]
    spec fn inv(self) -> bool {
        &&& slot_entries(self.slots).len() == self.values@.len()
        &&& forall|i: int|
            0 <= i < self.values@.len() ==> (#[trigger] slot_entries(self.slots)[i]).1 == i
        &&& forall|i: int, j: int|
            0 <= i < j < self.values@.len() ==> (#[trigger] slot_entries(self.slots)[i]).0 != (
            #[trigger] slot_entries(self.slots)[j]).0
    }

    /// The keys, in insertion order.
    pub closed spec fn keys(self) -> Seq<Seq<char>> {
        Seq::new(self.values@.len(), |i: int| slot_entries(self.slots)[i].0)
    }

    /// The values, each at the position of its key.
    pub closed spec fn values(self) -> Seq<V> {
        self.values@
    }

    /// An empty map.
    pub fn new() -> (map: Self)
        ensures
            map.keys() == Seq::<Seq<char>>::empty(),
            map.values() == Seq::<V>::empty(),
    {
        OrderedMap { slots: slots_new(), values: Vec::new() }
    }

    /// The number of entries. There are as many keys as values, and no key
    /// occurs twice.
    pub fn len(&self) -> (n: usize)
        ensures
            n == self.keys().len(),
            n == self.values().len(),
            self.keys().no_duplicates(),
    {
        proof {
            use_type_invariant(self);
        }
        self.values.len()
    }

    /// The position of the entry with this key.
    pub fn index_of(&self, key: &str) -> (position: Option<usize>)
        ensures
            position.is_some() == self.keys().contains(key@),
            position matches Some(i) ==> i < self.keys().len() && i < self.values().len()
                && self.keys()[i as int] == key@ && position_of(self.keys(), key@) == Some(i as int),
            position.is_none() ==> position_of(self.keys(), key@).is_none(),
    {
        proof {
            use_type_invariant(self);
        }
        match slots_get(&self.slots, key) {
            Some(slot) => {
                proof {
                    let i = choose|i: int|
                        0 <= i < slot_entries(self.slots).len() && #[trigger] slot_entries(self.slots)[i]
                            == (key@, slot);
                    assert(self.keys()[i] == key@);
                    let j = self.keys().index_of(key@);
                    assert(self.keys()[j] == key@);
                    assert(slot_entries(self.slots)[j].0 == key@);
                    assert(i == j);
                }
                Some(slot)
            },
            None => {
                proof {
                    assert forall|i: int| 0 <= i < self.keys().len() implies self.keys()[i] != key@ by {
                        assert(slot_entries(self.slots)[i].0 != key@);
                    }
                }
                None
            },
        }
    }

    /// Whether an entry has this key.
    pub fn contains_key(&self, key: &str) -> (found: bool)
        ensures
            found == self.keys().contains(key@),
    {
        self.index_of(key).is_some()
    }

    /// Puts `value` under `key`. Where the key is new, the entry becomes the
    /// last one; where it is not, the entry keeps its place, takes the new
    /// value and hands back the one it had.
    pub fn insert(&mut self, key: String, value: V) -> (previous: Option<V>)
        ensures
            match position_of(old(self).keys(), key@) {
                Some(i) => {
                    &&& final(self).keys() == old(self).keys()
                    &&& final(self).values() == old(self).values().update(i, value)
                    &&& previous == Some(old(self).values()[i])
                },
                None => {
                    &&& final(self).keys() == old(self).keys().push(key@)
                    &&& final(self).values() == old(self).values().push(value)
                    &&& previous.is_none()
                },
            },
    {
        proof {
            use_type_invariant(&*self);
        }
        match self.index_of(key.as_str()) {
            Some(i) => {
                let mut held = value;
                std::mem::swap(&mut self.values[i], &mut held);
                assert(self.keys() =~= old(self).keys());
                Some(held)
            },
            None => {
                let mut taken = OrderedMap::new();
                std::mem::swap(self, &mut taken);
                proof {
                    use_type_invariant(&taken);
                }
                let OrderedMap { slots, values } = taken;
                let mut slots = slots;
                let mut values = values;
                let ghost before = slot_entries(slots);
                let slot = values.len();
                let displaced = slots_insert(&mut slots, key, slot);
                values.push(value);
                proof {
                    if displaced.is_some() {
                        let i = choose|i: int|
                            0 <= i < before.len() && #[trigger] before[i] == (key@, displaced.unwrap());
                        assert(old(self).keys()[i] == key@);
                    }
                }
                *self = OrderedMap { slots, values };
                assert(self.keys() =~= old(self).keys().push(key@));
                None
            },
        }
    }

    /// The key of the entry at `index`.
    pub fn key_at(&self, index: usize) -> (key: &String)
        requires
            index < self.keys().len(),
        ensures
            key@ == self.keys()[index as int],
    {
        proof {
            use_type_invariant(self);
        }
        slots_key_at(&self.slots, index).unwrap()
    }

    /// The value of the entry at `index`.
    pub fn value_at(&self, index: usize) -> (value: &V)
        requires
            index < self.values().len(),
        ensures
            *value == self.values()[index as int],
    {
        &self.values[index]
    }

    /// The value of the entry at `index`, to be changed in place. The keys
    /// and the other values stay as they are.
    pub fn value_at_mut(&mut self, index: usize) -> (value: &mut V)
        requires
            index < old(self).values().len(),
        ensures
            *value == old(self).values()[index as int],
            final(self).values() == old(self).values().update(index as int, *final(value)),
            final(self).keys() == old(self).keys(),
    {
        proof {
            use_type_invariant(&*self);
        }
        &mut self.values[index]
    }

    /// The entry at `index`, if there is one.
    pub fn get_index(&self, index: usize) -> (entry: Option<(&String, &V)>)
        ensures
            index < self.keys().len() ==> entry.is_some() && entry.unwrap().0@ == self.keys()[index as int]
                && *entry.unwrap().1 == self.values()[index as int],
            index >= self.keys().len() ==> entry.is_none(),
    {
        if index < self.len() {
            Some((self.key_at(index), self.value_at(index)))
        } else {
            None
        }
    }

    /// The value stored under `key`, if there is one.
    pub fn get(&self, key: &str) -> (value: Option<&V>)
        ensures
            match position_of(self.keys(), key@) {
                Some(i) => value == Some(&self.values()[i]),
                None => value.is_none(),
            },
    {
        match self.index_of(key) {
            Some(i) => Some(self.value_at(i)),
            None => None,
        }
    }
}

} // verus!
